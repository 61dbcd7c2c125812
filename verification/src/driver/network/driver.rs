use crate::channel::patterns::{
    compile_with_size_limit,
    has_prefix,
    pattern_matches,
    Pattern,
};
use crate::channel::send_input::{OPERATION_OVER, TIMEOUT_OUT_OF_RANGE};
use crate::driver::generic::driver::{
    default_settings,
    settings_of,
    CommandsStep,
    Driver as GenericDriver,
    OperationOptions as GenericDriverOperationOptions,
    SendCommand,
    Settings,
    PROMPT_FETCH_FAILED,
    PROMPT_NOT_UTF8,
};
use crate::util::clock::{deadline_of, is_clock_instant, utc_now_micros, OWED_TIMEOUT};
use vstd::utf8::valid_utf8;
use crate::channel::send_interactive::{Event, Events};
use crate::driver::generic::driver::texts;
use crate::driver::network::graph::{connects, is_named_path, PrivilegeGraph};
use crate::errors::ScrapliError;
use crate::util::strings::{contains_any, string_contains_any_substring};
use vstd::prelude::*;
use vstd::string::StringExecFns;
use vstd::utf8::encode_utf8;

verus! {

/// The privilege level that configurations are sent at where the options
/// name none.
pub const DEFAULT_CONFIGURATION_PRIVILEGE_LEVEL: &'static str = "configuration";

/// The limit on the size of the compiled pattern that joins the patterns
/// of all privilege levels. It is high because the patterns use many
/// character classes, and joining them adds up.
pub const COMBINED_PROMPT_REGEX_COMPILED_BYTES_LIMIT: usize = 25_000_000;

/// The message of the error for patterns that cannot be joined begins with
/// this; what the regex crate said follows.
pub const JOIN_FAILED: &'static str =
    "encountered error joining privilege level prompt patterns, error: ";

/// The message of the error for a network driver without privilege levels.
pub const PRIVILEGES_UNSET: &'static str =
    "default desired privilege level and/or privilege levels are unset, these are required with 'network' driver";

/// `OperationOptions` holds arguments that apply to `Driver` operations (ex: `send_command`).
pub struct OperationOptions {
    /// The "generic driver" `OperationOptions`, which include the even
    /// "lower level" channel `OperationOptions`.
    pub generic_driver_operation_options: GenericDriverOperationOptions,
    /// The privilege level to execute the input in. This only applies to
    /// `send_configs`: `send_command` always acquires the
    /// `default_desired_privilege_level`.
    pub privilege_level: String,
}

impl Default for OperationOptions {
    fn default() -> (options: Self)
        ensures
            options.privilege_level@.len() == 0,
            options.generic_driver_operation_options.failed_when_contains@.len() == 0,
            !options.generic_driver_operation_options.stop_on_failed,
            options.generic_driver_operation_options.channel_operation_options.strip_prompt,
            !options.generic_driver_operation_options.channel_operation_options.eager,
            options.generic_driver_operation_options.channel_operation_options.timeout.is_none(),
            options.generic_driver_operation_options.channel_operation_options.complete_patterns@.len()
                == 0,
            options.generic_driver_operation_options.channel_operation_options.interim_prompt_patterns@.len()
                == 0,
    {
        OperationOptions {
            generic_driver_operation_options: GenericDriverOperationOptions::default(),
            privilege_level: String::new(),
        }
    }
}

impl Clone for OperationOptions {
    fn clone(&self) -> (copy: Self)
        ensures
            copy.privilege_level@ == self.privilege_level@,
            copy.generic_driver_operation_options.same_options(
                self.generic_driver_operation_options,
            ),
    {
        OperationOptions {
            generic_driver_operation_options: self.generic_driver_operation_options.clone(),
            privilege_level: self.privilege_level.clone(),
        }
    }
}

/// `PrivilegeLevel` defines a privilege level: its name, the pattern of
/// its prompt, and how to get into it and out of it.
pub struct PrivilegeLevel {
    /// The name of the `PrivilegeLevel` ex: "exec".
    pub name: String,
    /// The pattern of the prompt of this level: a prompt that it matches,
    /// and that holds none of the strings of `not_contains`, is a prompt of
    /// this level.
    pub pattern: Pattern,
    /// Strings that negate a match of `pattern`.
    pub not_contains: Vec<String>,
    /// The name of the "previous" or "lower" level, if there is one.
    pub previous_privilege_level: String,
    /// The command to "exit" or de-escalate from this level.
    pub de_escalate: String,
    /// The command to "enter" or escalate to this level.
    pub escalate: String,
    /// Whether escalating to this level asks for authentication.
    pub escalate_auth: bool,
    /// The prompt to expect when escalating asks for authentication.
    pub escalate_prompt: String,
}

/// What to do to get nearer to a privilege level.
#[derive(Clone, Copy, Debug, PartialEq, Eq, Structural)]
pub enum PrivilegeAction {
    /// Nothing: the level is reached.
    NoOp,
    /// Go up into the next level.
    Escalate,
    /// Go down out of the current level.
    Deescalate,
}

/// The (network) `Driver` arguments.
pub struct Args {
    /// The "secondary" auth password (usually the "enable" password, or "sudo/root" password).
    pub secondary_password: String,
    /// The privilege levels of the device, such as "exec" or "configuration".
    pub privilege_levels: Vec<PrivilegeLevel>,
    /// The privilege level that commands (not configs!) are sent at. It is
    /// acquired before any command is sent.
    pub default_desired_privilege_level: String,
}

impl Default for Args {
    fn default() -> (args: Self)
        ensures
            args.secondary_password@.len() == 0,
            args.privilege_levels@.len() == 0,
            args.default_desired_privilege_level@.len() == 0,
    {
        Args {
            secondary_password: String::new(),
            privilege_levels: Vec::new(),
            default_desired_privilege_level: String::new(),
        }
    }
}

/// One of the levels is named `a`, or names `a` as its previous level.
pub open spec fn levels_node(levels: Seq<PrivilegeLevel>, a: Seq<char>) -> bool {
    exists|k: int|
        0 <= k < levels.len() && ((#[trigger] levels[k]).name@ == a || (a.len() > 0
            && levels[k].previous_privilege_level@ == a))
}

/// The level `level` links the names `a` and `b`: one is its name, the
/// other the name of its previous level.
pub open spec fn links(level: PrivilegeLevel, a: Seq<char>, b: Seq<char>) -> bool {
    &&& level.previous_privilege_level@.len() > 0
    &&& (level.name@ == a && level.previous_privilege_level@ == b) || (level.name@ == b
        && level.previous_privilege_level@ == a)
}

/// One of the levels links the names `a` and `b`. The graph of the levels
/// has an edge, in both directions, between every level that names a
/// previous level and that previous level.
pub open spec fn levels_edge(levels: Seq<PrivilegeLevel>, a: Seq<char>, b: Seq<char>) -> bool {
    exists|k: int| 0 <= k < levels.len() && links(#[trigger] levels[k], a, b)
}

/// The graph has the nodes and the edges of the levels, and no others.
pub open spec fn reflects(graph: PrivilegeGraph, levels: Seq<PrivilegeLevel>) -> bool {
    &&& graph.well_formed()
    &&& forall|a: Seq<char>| #[trigger] graph.has_node(a) <==> levels_node(levels, a)
    &&& forall|a: Seq<char>, b: Seq<char>| #[trigger]
        graph.has_edge(a, b) <==> levels_edge(levels, a, b)
}

/// The patterns of the levels, joined by `|`.
pub open spec fn joined_patterns(levels: Seq<PrivilegeLevel>) -> Seq<char>
    decreases levels.len(),
{
    if levels.len() == 0 {
        Seq::empty()
    } else if levels.len() == 1 {
        levels[0].pattern@
    } else {
        joined_patterns(levels.drop_last()) + "|"@ + levels.last().pattern@
    }
}

/// Whether the prompt `prompt` is one of the level `level`: the pattern of
/// the level matches in it, and none of the `not_contains` strings of the
/// level stands in it.
pub open spec fn level_matches(level: PrivilegeLevel, prompt: Seq<char>) -> bool {
    &&& !contains_any(prompt, level.not_contains@)
    &&& pattern_matches(level.pattern@, encode_utf8(prompt))
}

/// The indices of the levels that the prompt `prompt` is one of, in order.
pub open spec fn matching_levels(levels: Seq<PrivilegeLevel>, prompt: Seq<char>) -> Seq<usize>
    decreases levels.len(),
{
    if levels.len() == 0 {
        Seq::empty()
    } else {
        let before = matching_levels(levels.drop_last(), prompt);
        if level_matches(levels.last(), prompt) {
            before.push((levels.len() - 1) as usize)
        } else {
            before
        }
    }
}

/// The message of the error for a prompt that is one of no level.
pub open spec fn no_level_message(prompt: Seq<char>) -> Seq<char> {
    "could not determine privilege level from prompt '"@ + prompt
        + "', found *no matching privilege levels*"@
}

/// The message of the error for a prompt that is one of several levels.
pub open spec fn many_levels_message(prompt: Seq<char>) -> Seq<char> {
    "could not determine privilege level from prompt '"@ + prompt
        + "', found *more than one matching privilege level*"@
}

/// The three texts joined.
pub fn message(before: &str, middle: &str, after: &str) -> (text: String)
    ensures
        text@ == before@ + middle@ + after@,
{
    let mut text = String::from_str(before);
    text.append(middle);
    text.append(after);
    text
}

/// Driver, or Network Driver, builds on the generic driver and adds some
/// "network smarts": it understands privilege levels.
pub struct Driver {
    /// The underlying `GenericDriver`.
    pub generic_driver: GenericDriver,
    /// The `Driver` arguments (typically provided by a user or from a "platform").
    pub args: Args,
    /// The name of the privilege level that the device was last seen in.
    pub current_privilege_level: String,
    /// The graph of the privilege levels.
    pub privilege_level_graph: PrivilegeGraph,
}

impl Driver {
    /// Create a new (network) Driver instance.
    pub fn new(generic_driver: GenericDriver, args: Args) -> (driver: Self)
        ensures
            driver.generic_driver == generic_driver,
            driver.args == args,
            driver.current_privilege_level@.len() == 0,
            driver.privilege_level_graph.well_formed(),
            driver.privilege_level_graph.names@.len() == 0,
    {
        Driver {
            generic_driver,
            args,
            current_privilege_level: String::new(),
            privilege_level_graph: PrivilegeGraph::new(),
        }
    }

    /// Builds the graph of the privilege levels: every level is a node,
    /// and every level that names a previous level is linked with it, in
    /// both directions.
    pub fn build_privilege_level_graph(&mut self)
        ensures
            final(self).generic_driver == old(self).generic_driver,
            final(self).args == old(self).args,
            final(self).current_privilege_level == old(self).current_privilege_level,
            reflects(final(self).privilege_level_graph, old(self).args.privilege_levels@),
    {
        let mut graph = PrivilegeGraph::new();
        let mut k: usize = 0;
        let ghost levels = self.args.privilege_levels@;
        while k < self.args.privilege_levels.len()
            invariant
                k <= levels.len(),
                levels == self.args.privilege_levels@,
                self.generic_driver == old(self).generic_driver,
                self.args == old(self).args,
                self.current_privilege_level == old(self).current_privilege_level,
                reflects(graph, levels.take(k as int)),
            decreases levels.len() - k,
        {
            let level = &self.args.privilege_levels[k];
            let ghost before = graph;
            let at = graph.intern(level.name.as_str());
            let ghost named = graph;
            let ghost mut both = graph;
            if !level.previous_privilege_level.as_str().is_empty() {
                let previous = graph.intern(level.previous_privilege_level.as_str());
                proof {
                    both = graph;
                }
                graph.link(at, previous);
                graph.link(previous, at);
                proof {
                    assert(both.names@[at as int] == named.names@[at as int]);
                }
            }
            proof {
                let shorter = levels.take(k as int);
                let longer = levels.take(k + 1);
                assert(longer[k as int] == levels[k as int]);
                assert forall|a: Seq<char>| #[trigger]
                    graph.has_node(a) <==> levels_node(longer, a) by {
                    if levels_node(shorter, a) {
                        let w = choose|w: int|
                            0 <= w < shorter.len() && ((#[trigger] shorter[w]).name@ == a || (
                            a.len() > 0 && shorter[w].previous_privilege_level@ == a));
                        assert(longer[w] == shorter[w]);
                    }
                    if levels_node(longer, a) {
                        let w = choose|w: int|
                            0 <= w < longer.len() && ((#[trigger] longer[w]).name@ == a || (a.len()
                                > 0 && longer[w].previous_privilege_level@ == a));
                        if w < k {
                            assert(shorter[w] == longer[w]);
                        }
                    }
                    assert(before.has_node(a) <==> levels_node(shorter, a));
                    assert(named.has_node(a) <==> before.has_node(a) || a == level.name@);
                    assert(graph.names == both.names);
                    assert(graph.has_node(a) <==> both.has_node(a));
                    if a == level.name@ {
                        assert(longer[k as int].name@ == a);
                    }
                    if a.len() > 0 && a == level.previous_privilege_level@ {
                        assert(longer[k as int].previous_privilege_level@ == a);
                    }
                }
                assert forall|a: Seq<char>, b: Seq<char>| #[trigger]
                    graph.has_edge(a, b) <==> levels_edge(longer, a, b) by {
                    if levels_edge(shorter, a, b) {
                        let w = choose|w: int|
                            0 <= w < shorter.len() && links(#[trigger] shorter[w], a, b);
                        assert(longer[w] == shorter[w]);
                    }
                    if levels_edge(longer, a, b) {
                        let w = choose|w: int|
                            0 <= w < longer.len() && links(#[trigger] longer[w], a, b);
                        if w < k {
                            assert(shorter[w] == longer[w]);
                        }
                    }
                    assert(before.has_edge(a, b) <==> levels_edge(shorter, a, b));
                    assert(named.has_edge(a, b) <==> before.has_edge(a, b));
                }
            }
            k += 1;
        }
        assert(levels.take(levels.len() as int) =~= levels);
        self.privilege_level_graph = graph;
    }
}

/// The message of the error for a target that is not a privilege level.
pub open spec fn invalid_level_message(target: Seq<char>) -> Seq<char> {
    "requested privilege level '"@ + target + "' is not a valid privilege level"@
}

/// The message of the error for a target that no way leads to.
pub open spec fn no_way_message(target: Seq<char>) -> Seq<char> {
    "could not build privilege level map to target privilege level '"@ + target
        + "', this is a bug"@
}

/// The message of the error for a next level that is no level.
pub open spec fn no_action_message(target: Seq<char>) -> Seq<char> {
    "could not determine action to take to get to privilege level '"@ + target
        + "', this is a bug"@
}

/// The message of the error for a target that was not reached within the
/// allowed number of actions.
pub open spec fn not_acquired_message(target: Seq<char>) -> Seq<char> {
    "failed to acquire target privilege level '"@ + target + "'"@
}

/// The message of the error for a level that is asked for by a name that
/// no level has.
pub const UNKNOWN_LEVEL: &'static str = "unknown privilege level, this is a bug";

/// The name that the current level is given while the device is between
/// levels.
pub const UNKNOWN: &'static str = "unknown";

/// The index of the first level named `name`; the number of levels where
/// none is.
pub open spec fn level_named(levels: Seq<PrivilegeLevel>, name: Seq<char>) -> int
    decreases levels.len(),
{
    if levels.len() == 0 {
        0
    } else if levels[0].name@ == name {
        0
    } else {
        1 + level_named(levels.drop_first(), name)
    }
}

/// The index of the first level named `name` is where no level before is
/// named so.
pub proof fn lemma_level_named(levels: Seq<PrivilegeLevel>, name: Seq<char>, at: int)
    requires
        0 <= at <= levels.len(),
        forall|k: int| 0 <= k < at ==> (#[trigger] levels[k]).name@ != name,
        at < levels.len() ==> levels[at].name@ == name,
    ensures
        level_named(levels, name) == at,
    decreases at,
{
    if at > 0 {
        let rest = levels.drop_first();
        assert forall|k: int| 0 <= k < at - 1 implies (#[trigger] rest[k]).name@ != name by {
            assert(rest[k] == levels[k + 1]);
        }
        lemma_level_named(rest, name, at - 1);
    }
}

/// What to send to the device to change its privilege level.
pub enum PrivilegeChange {
    /// One input, sent with default options.
    Input(String),
    /// A dialog, sent with default options.
    Dialog(Events),
}

impl Driver {
    /// The patterns of all privilege levels, joined by `|`.
    pub fn join_patterns(&self) -> (joined: String)
        ensures
            joined@ == joined_patterns(self.args.privilege_levels@),
    {
        let mut joined = String::new();
        let ghost levels = self.args.privilege_levels@;
        let mut k: usize = 0;
        while k < self.args.privilege_levels.len()
            invariant
                k <= levels.len(),
                levels == self.args.privilege_levels@,
                joined@ == joined_patterns(levels.take(k as int)),
            decreases levels.len() - k,
        {
            proof {
                assert(levels.take(k + 1).drop_last() =~= levels.take(k as int));
                assert(levels.take(k + 1).last() == levels[k as int]);
            }
            if k > 0 {
                joined.append("|");
            } else {
                assert(joined@ + levels[k as int].pattern@ =~= levels[k as int].pattern@);
            }
            joined.append(self.args.privilege_levels[k].pattern.as_str());
            k += 1;
        }
        assert(levels.take(levels.len() as int) =~= levels);
        joined
    }

    /// Makes what compiling the joined pattern gave the prompt pattern of
    /// the channel; where it gave an error, the prompt pattern stays as it
    /// was, and the error comes back under a message that says what was
    /// being done.
    pub fn set_joined_prompt_pattern(&mut self, compiled: Result<Pattern, regex::Error>) -> (r:
        Result<(), ScrapliError>)
        ensures
            final(self).args == old(self).args,
            final(self).current_privilege_level == old(self).current_privilege_level,
            final(self).privilege_level_graph == old(self).privilege_level_graph,
            final(self).generic_driver.args == old(self).generic_driver.args,
            final(self).generic_driver.channel.args.same_but_prompt(
                old(self).generic_driver.channel.args,
            ),
            match compiled {
                Ok(pattern) => r.is_ok() && final(self).generic_driver.channel.args.prompt_pattern
                    == pattern,
                Err(_) => (r matches Err(e) && has_prefix(e.details@, JOIN_FAILED@)) && final(self).generic_driver.channel.args.prompt_pattern == old(self).generic_driver.channel.args.prompt_pattern,
            },
    {
        match Pattern::checked(compiled, JOIN_FAILED) {
            Ok(pattern) => {
                self.generic_driver.channel.args.prompt_pattern = pattern;
                Ok(())
            },
            Err(err) => Err(err),
        }
    }

    /// Joins the patterns of all privilege levels into one pattern and
    /// makes it the prompt pattern of the channel: the channel does not
    /// care which level the device is in, it only needs to find *a* prompt.
    /// An error says that the joined pattern did not compile; the prompt
    /// pattern then stays as it was. Whether it compiles is for the regex
    /// crate to say; what is made of either is
    /// [`Driver::set_joined_prompt_pattern`].
    pub fn build_joined_prompt_pattern(&mut self) -> (r: Result<(), ScrapliError>)
        ensures
            final(self).args == old(self).args,
            final(self).current_privilege_level == old(self).current_privilege_level,
            final(self).privilege_level_graph == old(self).privilege_level_graph,
            final(self).generic_driver.args == old(self).generic_driver.args,
            final(self).generic_driver.channel.args.same_but_prompt(
                old(self).generic_driver.channel.args,
            ),
            r.is_ok() ==> final(self).generic_driver.channel.args.prompt_pattern@
                == joined_patterns(old(self).args.privilege_levels@),
            r matches Err(e) ==> has_prefix(e.details@, JOIN_FAILED@)
                && final(self).generic_driver.channel.args.prompt_pattern == old(self).generic_driver.channel.args.prompt_pattern,
    {
        let joined = self.join_patterns();
        let compiled = compile_with_size_limit(
            joined.as_str(),
            COMBINED_PROMPT_REGEX_COMPILED_BYTES_LIMIT,
        );
        self.set_joined_prompt_pattern(compiled)
    }

    /// Updates what the driver derives from its privilege levels: rebuilds
    /// the graph of the levels and sets the joined prompt pattern of the
    /// channel. An error says that the joined pattern did not compile; the
    /// graph is rebuilt all the same.
    pub fn update_privileges(&mut self) -> (r: Result<(), ScrapliError>)
        ensures
            final(self).args == old(self).args,
            final(self).current_privilege_level == old(self).current_privilege_level,
            final(self).generic_driver.args == old(self).generic_driver.args,
            final(self).generic_driver.channel.args.same_but_prompt(
                old(self).generic_driver.channel.args,
            ),
            reflects(final(self).privilege_level_graph, old(self).args.privilege_levels@),
            r.is_ok() ==> final(self).generic_driver.channel.args.prompt_pattern@
                == joined_patterns(old(self).args.privilege_levels@),
            r matches Err(e) ==> has_prefix(e.details@, JOIN_FAILED@)
                && final(self).generic_driver.channel.args.prompt_pattern == old(self).generic_driver.channel.args.prompt_pattern,
    {
        self.build_privilege_level_graph();
        self.build_joined_prompt_pattern()
    }

    /// Whether the driver lacks what it needs of privilege levels: it has
    /// no privilege level, or names no default desired privilege level.
    pub open spec fn privileges_unset(self) -> bool {
        self.args.default_desired_privilege_level@.len() == 0 || self.args.privilege_levels@.len()
            == 0
    }

    /// `next` and `r` are what preparing the driver `self` for opening
    /// gives, where compiling the joined pattern gave `compiled`.
    ///
    /// The graph of the levels is rebuilt in any case. Where the joined
    /// pattern did not compile, the prompt pattern stays as it was, and the
    /// error says that joining failed. Else the joined pattern is the
    /// prompt pattern of the channel; the driver is then ready, unless it
    /// lacks privilege levels or a default desired privilege level, which
    /// is an error of its own.
    pub open spec fn opened_with(
        self,
        compiled: Result<Pattern, regex::Error>,
        next: Self,
        r: Result<(), ScrapliError>,
    ) -> bool {
        &&& next.args == self.args
        &&& next.current_privilege_level == self.current_privilege_level
        &&& next.generic_driver.args == self.generic_driver.args
        &&& next.generic_driver.channel.args.same_but_prompt(self.generic_driver.channel.args)
        &&& reflects(next.privilege_level_graph, self.args.privilege_levels@)
        &&& match compiled {
            Err(_) => (r matches Err(e) && has_prefix(e.details@, JOIN_FAILED@))
                && next.generic_driver.channel.args.prompt_pattern
                == self.generic_driver.channel.args.prompt_pattern,
            Ok(pattern) => next.generic_driver.channel.args.prompt_pattern == pattern && if self.privileges_unset() {
                r matches Err(e) && e.details@ == PRIVILEGES_UNSET@
            } else {
                r.is_ok()
            },
        }
    }

    /// Prepares the driver for opening with what compiling the joined
    /// pattern gave: see [`Driver::opened_with`].
    pub fn open_with(&mut self, compiled: Result<Pattern, regex::Error>) -> (r: Result<
        (),
        ScrapliError,
    >)
        ensures
            old(self).opened_with(compiled, *final(self), r),
    {
        self.build_privilege_level_graph();
        match self.set_joined_prompt_pattern(compiled) {
            Ok(()) => {},
            Err(err) => {
                return Err(err);
            },
        }
        if self.args.default_desired_privilege_level.as_str().is_empty()
            || self.args.privilege_levels.len() == 0 {
            return Err(ScrapliError::new(PRIVILEGES_UNSET));
        }
        Ok(())
    }

    /// Prepares the driver for opening: updates what it derives from its
    /// privilege levels, and checks that privilege levels and a default
    /// desired privilege level are set. After it the channel is opened.
    /// Whether the joined pattern compiles is for the regex crate to say;
    /// what is made of either is [`Driver::open_with`].
    pub fn open(&mut self) -> (r: Result<(), ScrapliError>)
        ensures
            exists|compiled: Result<Pattern, regex::Error>|
                (compiled matches Ok(pattern) ==> pattern@ == joined_patterns(
                    old(self).args.privilege_levels@,
                )) && #[trigger] old(self).opened_with(compiled, *final(self), r),
            r.is_ok() ==> {
                &&& final(self).generic_driver.channel.args.prompt_pattern@ == joined_patterns(
                    old(self).args.privilege_levels@,
                )
                &&& !old(self).privileges_unset()
            },
    {
        let joined = self.join_patterns();
        let compiled = compile_with_size_limit(
            joined.as_str(),
            COMBINED_PROMPT_REGEX_COMPILED_BYTES_LIMIT,
        );
        let ghost given = compiled;
        let r = self.open_with(compiled);
        assert(old(self).opened_with(given, *self, r));
        r
    }

    /// The privilege level that the prompt `current_prompt` is one of. A
    /// prompt that is one of no level, or of more than one, is an error:
    /// the levels of the device are then not told apart as they must be.
    pub fn determine_current_privilege_level(&self, current_prompt: &str) -> (r: Result<
        String,
        ScrapliError,
    >)
        ensures
            ({
                let matching = matching_levels(self.args.privilege_levels@, current_prompt@);
                if matching.len() == 1 {
                    r matches Ok(name) && name@ == self.args.privilege_levels@[matching[0] as int].name@
                } else if matching.len() == 0 {
                    r matches Err(e) && e.details@ == no_level_message(current_prompt@)
                } else {
                    r matches Err(e) && e.details@ == many_levels_message(current_prompt@)
                }
            }),
    {
        let mut possible: Vec<usize> = Vec::new();
        let ghost levels = self.args.privilege_levels@;
        let mut k: usize = 0;
        while k < self.args.privilege_levels.len()
            invariant
                k <= levels.len(),
                levels == self.args.privilege_levels@,
                possible@ == matching_levels(levels.take(k as int), current_prompt@),
                forall|t: int| 0 <= t < possible@.len() ==> #[trigger] possible@[t] < k,
            decreases levels.len() - k,
        {
            let level = &self.args.privilege_levels[k];
            proof {
                assert(levels.take(k + 1).drop_last() =~= levels.take(k as int));
                assert(levels.take(k + 1).last() == levels[k as int]);
            }
            if !string_contains_any_substring(current_prompt, level.not_contains.as_slice())
                && level.pattern.is_match(current_prompt.as_bytes()) {
                possible.push(k);
            }
            k += 1;
        }
        assert(levels.take(levels.len() as int) =~= levels);
        if possible.len() == 1 {
            Ok(self.args.privilege_levels[possible[0]].name.clone())
        } else if possible.len() == 0 {
            Err(
                ScrapliError {
                    details: message(
                        "could not determine privilege level from prompt '",
                        current_prompt,
                        "', found *no matching privilege levels*",
                    ),
                },
            )
        } else {
            Err(
                ScrapliError {
                    details: message(
                        "could not determine privilege level from prompt '",
                        current_prompt,
                        "', found *more than one matching privilege level*",
                    ),
                },
            )
        }
    }

    /// The names of the privilege levels to pass on the way from the level
    /// `current_privilege_level` to the level `target_privilege_level`,
    /// both ends included: the way through the graph of the levels that a
    /// depth-first search finds first. No level is passed twice. Nothing
    /// comes back if and only if no way leads from the one to the other.
    pub fn build_privilege_change_map(
        &self,
        current_privilege_level: &str,
        target_privilege_level: &str,
    ) -> (steps: Vec<String>)
        requires
            self.privilege_level_graph.well_formed(),
        ensures
            steps@.len() == 0 <==> !connects(
                self.privilege_level_graph,
                current_privilege_level@,
                target_privilege_level@,
            ),
            steps@.len() > 0 ==> is_named_path(
                self.privilege_level_graph,
                texts(steps@),
                current_privilege_level@,
                target_privilege_level@,
            ),
    {
        self.privilege_level_graph.path_between(current_privilege_level, target_privilege_level)
    }

    /// The index of the first privilege level named `name`, if there is
    /// one.
    pub fn find_level(&self, name: &str) -> (found: Option<usize>)
        ensures
            match found {
                Some(at) => at < self.args.privilege_levels@.len() && at == level_named(
                    self.args.privilege_levels@,
                    name@,
                ) && self.args.privilege_levels@[at as int].name@ == name@,
                None => level_named(self.args.privilege_levels@, name@)
                    == self.args.privilege_levels@.len(),
            },
    {
        let wanted = name.to_owned();
        let mut k: usize = 0;
        while k < self.args.privilege_levels.len()
            invariant
                k <= self.args.privilege_levels@.len(),
                wanted@ == name@,
                forall|t: int| 0 <= t < k ==> (#[trigger] self.args.privilege_levels@[t]).name@ != name@,
            decreases self.args.privilege_levels@.len() - k,
        {
            if self.args.privilege_levels[k].name == wanted {
                proof {
                    lemma_level_named(self.args.privilege_levels@, name@, k as int);
                }
                return Some(k);
            }
            k += 1;
        }
        proof {
            lemma_level_named(self.args.privilege_levels@, name@, k as int);
        }
        None
    }
}

/// What a prompt asks for on the way to a target level.
pub enum Verdict {
    /// The prompt is one of no level.
    NoLevel,
    /// The prompt is one of more than one level.
    ManyLevels,
    /// The device is at the target, the level of this name.
    Arrived(Seq<char>),
    /// No way leads to the target.
    NoWay,
    /// The next level on the way is no level.
    NoAction,
    /// The device is to de-escalate out of the level of this name, the
    /// current one.
    Deescalate(Seq<char>),
    /// The device is to escalate into the level of this name, the next
    /// one.
    Escalate(Seq<char>),
}

/// What the prompt `prompt` asks for on the way to the level `target`.
/// `next` is the level after the current one on the way that was found; it
/// counts only where the current level is not the target and a way leads
/// there.
///
/// A prompt that is not one of exactly one level is an error. At the
/// target nothing is to be done. Where no way leads to the target, that is
/// an error. Else the next level on the way decides: if its previous level
/// is the current level, the device escalates into it; otherwise it
/// de-escalates out of the current level. A next level that is no level is
/// an error.
pub open spec fn decision(
    driver: Driver,
    target: Seq<char>,
    prompt: Seq<char>,
    next: Seq<char>,
) -> Verdict {
    let levels = driver.args.privilege_levels@;
    let matching = matching_levels(levels, prompt);
    if matching.len() == 0 {
        Verdict::NoLevel
    } else if matching.len() > 1 {
        Verdict::ManyLevels
    } else {
        let current = levels[matching[0] as int].name@;
        if current == target {
            Verdict::Arrived(current)
        } else if !connects(driver.privilege_level_graph, current, target) {
            Verdict::NoWay
        } else {
            let at = level_named(levels, next);
            if at >= levels.len() {
                Verdict::NoAction
            } else if levels[at].previous_privilege_level@ != current {
                Verdict::Deescalate(current)
            } else {
                Verdict::Escalate(next)
            }
        }
    }
}

/// What [`Driver::process_acquire_privilege_level`] returns for a verdict.
pub open spec fn is_outcome(
    verdict: Verdict,
    target: Seq<char>,
    prompt: Seq<char>,
    r: Result<(PrivilegeAction, String), ScrapliError>,
) -> bool {
    match verdict {
        Verdict::NoLevel => r matches Err(e) && e.details@ == no_level_message(prompt),
        Verdict::ManyLevels => r matches Err(e) && e.details@ == many_levels_message(prompt),
        Verdict::Arrived(level) => r matches Ok(taken) && taken.0 == PrivilegeAction::NoOp
            && taken.1@ == level,
        Verdict::NoWay => r matches Err(e) && e.details@ == no_way_message(target),
        Verdict::NoAction => r matches Err(e) && e.details@ == no_action_message(target),
        Verdict::Deescalate(level) => r matches Ok(taken) && taken.0 == PrivilegeAction::Deescalate
            && taken.1@ == level,
        Verdict::Escalate(level) => r matches Ok(taken) && taken.0 == PrivilegeAction::Escalate
            && taken.1@ == level,
    }
}

/// The level that the driver notes as its current one after a verdict,
/// where it had noted `before`: the target once it is reached, `"unknown"`
/// once a way to it was found, and else what it had noted.
pub open spec fn level_noted(verdict: Verdict, before: Seq<char>) -> Seq<char> {
    match verdict {
        Verdict::NoLevel | Verdict::ManyLevels | Verdict::NoWay => before,
        Verdict::Arrived(level) => level,
        Verdict::NoAction | Verdict::Deescalate(_) | Verdict::Escalate(_) => UNKNOWN@,
    }
}

/// `next` can be the level after `current` on a way to `target`: a way
/// through the graph leads from `current` over `next` to `target`.
pub open spec fn is_next_hop(
    graph: PrivilegeGraph,
    current: Seq<char>,
    target: Seq<char>,
    next: Seq<char>,
) -> bool {
    exists|path: Seq<Seq<char>>| #[trigger]
        is_named_path(graph, path, current, target) && path.len() >= 2 && path[1] == next
}

/// `next` is a level that can come after the current one on the way to
/// `target`, where the prompt tells the current level, that level is not
/// the target, and a way leads to the target.
pub open spec fn hop_is_on_a_way(
    driver: Driver,
    target: Seq<char>,
    prompt: Seq<char>,
    next: Seq<char>,
) -> bool {
    let levels = driver.args.privilege_levels@;
    matching_levels(levels, prompt).len() == 1 && connects(
        driver.privilege_level_graph,
        level_of(levels, prompt),
        target,
    ) && level_of(levels, prompt) != target ==> is_next_hop(
        driver.privilege_level_graph,
        level_of(levels, prompt),
        target,
        next,
    )
}

/// The current level of the device as the prompt `prompt` tells it, where
/// it is one of exactly one level.
pub open spec fn level_of(levels: Seq<PrivilegeLevel>, prompt: Seq<char>) -> Seq<char> {
    levels[matching_levels(levels, prompt)[0] as int].name@
}

/// What escalating into the level `level` sends: the escalate command
/// alone where the level asks for no authentication or no secondary
/// password is set; else a dialog of two events, the escalate command,
/// answered by the escalate prompt, and the secondary password, hidden,
/// answered by the prompt of the level.
pub open spec fn is_escalation(
    level: PrivilegeLevel,
    secondary_password: Seq<char>,
    change: PrivilegeChange,
) -> bool {
    if !level.escalate_auth || secondary_password.len() == 0 {
        change matches PrivilegeChange::Input(input) && input@ == level.escalate@
    } else {
        change matches PrivilegeChange::Dialog(events) && {
            &&& events.0@.len() == 2
            &&& events.0@[0].input@ == level.escalate@
            &&& events.0@[0].response@ == level.escalate_prompt@
            &&& !events.0@[0].hidden
            &&& events.0@[1].input@ == secondary_password
            &&& events.0@[1].response@ == level.pattern@
            &&& events.0@[1].hidden
        }
    }
}

impl Driver {
    /// Decides, from the prompt `current_prompt`, what to do next on the
    /// way to the level `target_privilege_level`: see [`decision`]. The
    /// driver notes the level it is at: the target once it is reached, and
    /// `"unknown"` once an action is to be taken.
    pub fn process_acquire_privilege_level(
        &mut self,
        target_privilege_level: &str,
        current_prompt: &str,
    ) -> (r: Result<(PrivilegeAction, String), ScrapliError>)
        requires
            old(self).privilege_level_graph.well_formed(),
        ensures
            final(self).generic_driver == old(self).generic_driver,
            final(self).args == old(self).args,
            final(self).privilege_level_graph == old(self).privilege_level_graph,
            exists|next: Seq<char>|
                {
                    let decided = #[trigger] decision(
                        *old(self),
                        target_privilege_level@,
                        current_prompt@,
                        next,
                    );
                    &&& hop_is_on_a_way(
                        *old(self),
                        target_privilege_level@,
                        current_prompt@,
                        next,
                    )
                    &&& is_outcome(decided, target_privilege_level@, current_prompt@, r)
                    &&& final(self).current_privilege_level@ == level_noted(
                        decided,
                        old(self).current_privilege_level@,
                    )
                },
    {
        let ghost levels = self.args.privilege_levels@;
        let current = match self.determine_current_privilege_level(current_prompt) {
            Ok(current) => current,
            Err(err) => {
                assert(decision(*old(self), target_privilege_level@, current_prompt@, Seq::empty())
                    is NoLevel || decision(
                    *old(self),
                    target_privilege_level@,
                    current_prompt@,
                    Seq::empty(),
                ) is ManyLevels);
                return Err(err);
            },
        };
        let target = target_privilege_level.to_owned();
        if current == target {
            self.current_privilege_level = current.clone();
            assert(decision(*old(self), target_privilege_level@, current_prompt@, Seq::empty())
                == Verdict::Arrived(current@));
            return Ok((PrivilegeAction::NoOp, current));
        }
        let steps = self.build_privilege_change_map(current.as_str(), target_privilege_level);
        if steps.len() == 0 {
            assert(decision(*old(self), target_privilege_level@, current_prompt@, Seq::empty())
                is NoWay);
            return Err(
                ScrapliError {
                    details: message(
                        "could not build privilege level map to target privilege level '",
                        target_privilege_level,
                        "', this is a bug",
                    ),
                },
            );
        }
        proof {
            let path = texts(steps@);
            assert(is_named_path(
                self.privilege_level_graph,
                path,
                current@,
                target_privilege_level@,
            ));
            assert(path.len() >= 2) by {
                if path.len() == 1 {
                    assert(path[0] == path.last());
                }
            }
        }
        self.current_privilege_level = String::from_str(UNKNOWN);
        let next = &steps[1];
        assert(texts(steps@)[1] == next@);
        assert(is_next_hop(
            self.privilege_level_graph,
            current@,
            target_privilege_level@,
            next@,
        ));
        match self.find_level(next.as_str()) {
            None => {
                assert(decision(*old(self), target_privilege_level@, current_prompt@, next@)
                    is NoAction);
                Err(
                    ScrapliError {
                        details: message(
                            "could not determine action to take to get to privilege level '",
                            target_privilege_level,
                            "', this is a bug",
                        ),
                    },
                )
            },
            Some(at) => {
                let level = &self.args.privilege_levels[at];
                if level.previous_privilege_level != current {
                    assert(decision(*old(self), target_privilege_level@, current_prompt@, next@)
                        == Verdict::Deescalate(current@));
                    Ok((PrivilegeAction::Deescalate, current))
                } else {
                    assert(decision(*old(self), target_privilege_level@, current_prompt@, next@)
                        == Verdict::Escalate(next@));
                    Ok((PrivilegeAction::Escalate, level.name.clone()))
                }
            },
        }
    }

    /// What to send to de-escalate out of the level named
    /// `target_privilege_level`: the de-escalate command of the first level
    /// of that name. A name that no level has is an error.
    pub fn deescalate_privilege_level(&self, target_privilege_level: &str) -> (r: Result<
        PrivilegeChange,
        ScrapliError,
    >)
        ensures
            ({
                let levels = self.args.privilege_levels@;
                let at = level_named(levels, target_privilege_level@);
                if at < levels.len() {
                    r matches Ok(PrivilegeChange::Input(input)) && input@ == levels[at].de_escalate@
                } else {
                    r matches Err(e) && e.details@ == UNKNOWN_LEVEL@
                }
            }),
    {
        match self.find_level(target_privilege_level) {
            None => Err(ScrapliError::new(UNKNOWN_LEVEL)),
            Some(at) => Ok(PrivilegeChange::Input(self.args.privilege_levels[at].de_escalate.clone())),
        }
    }

    /// What to send to escalate into the level named
    /// `target_privilege_level`: see [`is_escalation`], for the first level
    /// of that name. A name that no level has is an error.
    pub fn escalate_privilege_level(&self, target_privilege_level: &str) -> (r: Result<
        PrivilegeChange,
        ScrapliError,
    >)
        ensures
            ({
                let levels = self.args.privilege_levels@;
                let at = level_named(levels, target_privilege_level@);
                if at < levels.len() {
                    r matches Ok(change) && is_escalation(
                        levels[at],
                        self.args.secondary_password@,
                        change,
                    )
                } else {
                    r matches Err(e) && e.details@ == UNKNOWN_LEVEL@
                }
            }),
    {
        let at = match self.find_level(target_privilege_level) {
            None => {
                return Err(ScrapliError::new(UNKNOWN_LEVEL));
            },
            Some(at) => at,
        };
        let level = &self.args.privilege_levels[at];
        if !level.escalate_auth || self.args.secondary_password.as_str().is_empty() {
            return Ok(PrivilegeChange::Input(level.escalate.clone()));
        }
        let mut events: Vec<Event> = Vec::new();
        events.push(
            Event {
                input: level.escalate.clone(),
                response: level.escalate_prompt.clone(),
                hidden: false,
            },
        );
        events.push(
            Event {
                input: self.args.secondary_password.clone(),
                response: level.pattern.as_str().to_owned(),
                hidden: true,
            },
        );
        Ok(PrivilegeChange::Dialog(Events(events)))
    }
}

/// Where acquiring a privilege level stands.
#[derive(Clone, Copy, Debug, PartialEq, Eq, Structural)]
pub enum AcquirePhase {
    /// Nothing was asked for yet.
    Start,
    /// The prompt of the device was asked for.
    Prompt,
    /// A change of the privilege level was asked for.
    Change,
    /// The level was acquired, or could not be.
    Over,
}

/// Acquiring a privilege level: get the prompt, see which level the device
/// is in, take one step towards the target, and again, until the device
/// is at the target. The steps are counted, and there are never more of
/// them than twice the number of privilege levels.
pub struct AcquirePrivilege {
    /// The name of the level to acquire.
    pub target: String,
    /// How many changes of the privilege level were asked for.
    pub action_count: usize,
    /// Where the operation stands.
    pub phase: AcquirePhase,
}

/// What acquiring a privilege level asks for next.
pub enum AcquireStep {
    /// Ask the device for its prompt, and hand what comes of it to
    /// [`AcquirePrivilege::prompt_fetched`].
    GetPrompt,
    /// Send this to the device, and hand what comes of it to
    /// [`AcquirePrivilege::changed`].
    Change(PrivilegeChange),
    /// The device is at the target.
    Done,
    /// The operation failed.
    Fail(ScrapliError),
}

/// The most changes of the privilege level that one acquisition asks for:
/// twice the number of levels.
pub open spec fn action_cap(levels: Seq<PrivilegeLevel>) -> int {
    2 * (levels.len() as int)
}

impl AcquirePrivilege {
    /// No more changes were asked for than may be, and the count of the
    /// changes that may be fits the machine.
    pub open spec fn well_formed(self, driver: Driver) -> bool {
        &&& driver.privilege_level_graph.well_formed()
        &&& action_cap(driver.args.privilege_levels@) <= usize::MAX
        &&& self.action_count <= action_cap(driver.args.privilege_levels@)
    }

    /// Begins: the prompt of the device is to be fetched. An operation
    /// that has begun already fails.
    pub fn start(&mut self) -> (step: AcquireStep)
        ensures
            final(self).target == old(self).target,
            final(self).action_count == old(self).action_count,
            old(self).phase == AcquirePhase::Start ==> step is GetPrompt && final(self).phase
                == AcquirePhase::Prompt,
            old(self).phase != AcquirePhase::Start ==> (step matches AcquireStep::Fail(e)
                && e.details@ == OPERATION_OVER@) && final(self).phase == AcquirePhase::Over,
    {
        if self.phase == AcquirePhase::Start {
            self.phase = AcquirePhase::Prompt;
            AcquireStep::GetPrompt
        } else {
            self.phase = AcquirePhase::Over;
            AcquireStep::Fail(ScrapliError::new(OPERATION_OVER))
        }
    }

    /// What a verdict leads to in an acquisition that has asked for
    /// `count` changes: the step `step` and the new count `next_count`.
    ///
    /// At the target the acquisition is done. Where the device is to
    /// escalate or to de-escalate, and fewer changes were asked for than
    /// may be, the change is asked for and counted; where as many were
    /// asked for as may be, the acquisition fails. Every other verdict
    /// fails it with its message.
    pub open spec fn is_step(
        driver: Driver,
        target: Seq<char>,
        prompt: Seq<char>,
        verdict: Verdict,
        count: usize,
        step: AcquireStep,
        next_count: usize,
    ) -> bool {
        let levels = driver.args.privilege_levels@;
        match verdict {
            Verdict::NoLevel => next_count == count && (step matches AcquireStep::Fail(e)
                && e.details@ == no_level_message(prompt)),
            Verdict::ManyLevels => next_count == count && (step matches AcquireStep::Fail(e)
                && e.details@ == many_levels_message(prompt)),
            Verdict::NoWay => next_count == count && (step matches AcquireStep::Fail(e)
                && e.details@ == no_way_message(target)),
            Verdict::NoAction => next_count == count && (step matches AcquireStep::Fail(e)
                && e.details@ == no_action_message(target)),
            Verdict::Arrived(_) => next_count == count && step is Done,
            Verdict::Deescalate(level) => if count >= action_cap(levels) {
                next_count == count && (step matches AcquireStep::Fail(e) && e.details@
                    == not_acquired_message(target))
            } else if level_named(levels, level) < levels.len() {
                next_count == count + 1 && (step matches AcquireStep::Change(
                    PrivilegeChange::Input(input),
                ) && input@ == levels[level_named(levels, level)].de_escalate@)
            } else {
                next_count == count && (step matches AcquireStep::Fail(e) && e.details@
                    == UNKNOWN_LEVEL@)
            },
            Verdict::Escalate(level) => if count >= action_cap(levels) {
                next_count == count && (step matches AcquireStep::Fail(e) && e.details@
                    == not_acquired_message(target))
            } else if level_named(levels, level) < levels.len() {
                next_count == count + 1 && (step matches AcquireStep::Change(change)
                    && is_escalation(
                    levels[level_named(levels, level)],
                    driver.args.secondary_password@,
                    change,
                ))
            } else {
                next_count == count && (step matches AcquireStep::Fail(e) && e.details@
                    == UNKNOWN_LEVEL@)
            },
        }
    }

    /// Takes how fetching the prompt ended, and says what comes next.
    ///
    /// An error of the channel, and a prompt that is not valid UTF-8, fail
    /// the acquisition. Else the prompt decides (see [`decision`] and
    /// [`AcquirePrivilege::is_step`]), and the driver notes the level it
    /// is at. The acquisition goes on only with a change of the privilege
    /// level; whatever happens, no more changes are asked for than twice
    /// the number of privilege levels.
    pub fn prompt_fetched(&mut self, driver: &mut Driver, fetched: Result<Vec<u8>, ScrapliError>) -> (step:
        AcquireStep)
        requires
            old(self).well_formed(*old(driver)),
        ensures
            final(self).well_formed(*final(driver)),
            final(self).action_count <= action_cap(old(driver).args.privilege_levels@),
            final(self).target == old(self).target,
            final(driver).generic_driver == old(driver).generic_driver,
            final(driver).args == old(driver).args,
            final(driver).privilege_level_graph == old(driver).privilege_level_graph,
            final(self).phase == (if step is Change {
                AcquirePhase::Change
            } else {
                AcquirePhase::Over
            }),
            old(self).phase != AcquirePhase::Prompt ==> (step matches AcquireStep::Fail(e)
                && e.details@ == OPERATION_OVER@) && final(self).action_count == old(self).action_count && final(driver).current_privilege_level == old(driver).current_privilege_level,
            old(self).phase == AcquirePhase::Prompt ==> match fetched {
                Err(err) => (step matches AcquireStep::Fail(e) && e.details@ == PROMPT_FETCH_FAILED@
                    + err.details@) && final(self).action_count == old(self).action_count
                    && final(driver).current_privilege_level == old(driver).current_privilege_level,
                Ok(bytes) => if !valid_utf8(bytes@) {
                    (step matches AcquireStep::Fail(e) && e.details@ == PROMPT_NOT_UTF8@) && final(self).action_count == old(self).action_count && final(driver).current_privilege_level == old(driver).current_privilege_level
                } else {
                    exists|next: Seq<char>|
                        {
                            let verdict = #[trigger] decision(
                                *old(driver),
                                old(self).target@,
                                crate::response::decoded(bytes@),
                                next,
                            );
                            &&& hop_is_on_a_way(
                                *old(driver),
                                old(self).target@,
                                crate::response::decoded(bytes@),
                                next,
                            )
                            &&& Self::is_step(
                                *old(driver),
                                old(self).target@,
                                crate::response::decoded(bytes@),
                                verdict,
                                old(self).action_count,
                                step,
                                final(self).action_count,
                            )
                            &&& final(driver).current_privilege_level@ == level_noted(
                                verdict,
                                old(driver).current_privilege_level@,
                            )
                        }
                },
            },
    {
        if self.phase != AcquirePhase::Prompt {
            self.phase = AcquirePhase::Over;
            return AcquireStep::Fail(ScrapliError::new(OPERATION_OVER));
        }
        self.phase = AcquirePhase::Over;
        let ghost bytes = match fetched {
            Ok(ref bytes) => bytes@,
            Err(_) => Seq::empty(),
        };
        let prompt = match GenericDriver::prompt_text(fetched) {
            Ok(prompt) => prompt,
            Err(err) => {
                return AcquireStep::Fail(err);
            },
        };
        proof {
            crate::response::lemma_decoded(bytes, prompt@);
        }
        let decided = driver.process_acquire_privilege_level(
            self.target.as_str(),
            prompt.as_str(),
        );
        let ghost next = choose|next: Seq<char>|
            {
                let verdict = #[trigger] decision(*old(driver), self.target@, prompt@, next);
                &&& hop_is_on_a_way(*old(driver), self.target@, prompt@, next)
                &&& is_outcome(verdict, self.target@, prompt@, decided)
                &&& driver.current_privilege_level@ == level_noted(
                    verdict,
                    old(driver).current_privilege_level@,
                )
            };
        let ghost verdict = decision(*old(driver), self.target@, prompt@, next);
        let (action, level) = match decided {
            Ok(taken) => taken,
            Err(err) => {
                assert(Self::is_step(
                    *old(driver),
                    self.target@,
                    prompt@,
                    verdict,
                    self.action_count,
                    AcquireStep::Fail(err),
                    self.action_count,
                ));
                return AcquireStep::Fail(err);
            },
        };
        if action == PrivilegeAction::NoOp {
            return AcquireStep::Done;
        }
        if self.action_count >= driver.args.privilege_levels.len() * 2 {
            let failure = AcquireStep::Fail(
                ScrapliError {
                    details: message(
                        "failed to acquire target privilege level '",
                        self.target.as_str(),
                        "'",
                    ),
                },
            );
            assert(Self::is_step(
                *old(driver),
                self.target@,
                prompt@,
                verdict,
                self.action_count,
                failure,
                self.action_count,
            ));
            return failure;
        }
        let change = if action == PrivilegeAction::Escalate {
            driver.escalate_privilege_level(level.as_str())
        } else {
            driver.deescalate_privilege_level(level.as_str())
        };
        match change {
            Ok(change) => {
                self.action_count = self.action_count + 1;
                self.phase = AcquirePhase::Change;
                let step = AcquireStep::Change(change);
                assert(Self::is_step(
                    *old(driver),
                    self.target@,
                    prompt@,
                    verdict,
                    old(self).action_count,
                    step,
                    self.action_count,
                ));
                step
            },
            Err(err) => {
                let step = AcquireStep::Fail(err);
                assert(Self::is_step(
                    *old(driver),
                    self.target@,
                    prompt@,
                    verdict,
                    self.action_count,
                    step,
                    self.action_count,
                ));
                step
            },
        }
    }

    /// Takes how the change of the privilege level ended, and says what
    /// comes next: the prompt is to be fetched again; an error of the
    /// channel fails the acquisition.
    pub fn changed(&mut self, sent: Result<Vec<u8>, ScrapliError>) -> (step: AcquireStep)
        ensures
            final(self).target == old(self).target,
            final(self).action_count == old(self).action_count,
            old(self).phase != AcquirePhase::Change ==> (step matches AcquireStep::Fail(e)
                && e.details@ == OPERATION_OVER@) && final(self).phase == AcquirePhase::Over,
            old(self).phase == AcquirePhase::Change ==> match sent {
                Ok(_) => step is GetPrompt && final(self).phase == AcquirePhase::Prompt,
                Err(err) => step == AcquireStep::Fail(err) && final(self).phase
                    == AcquirePhase::Over,
            },
    {
        if self.phase != AcquirePhase::Change {
            self.phase = AcquirePhase::Over;
            return AcquireStep::Fail(ScrapliError::new(OPERATION_OVER));
        }
        match sent {
            Ok(_) => {
                self.phase = AcquirePhase::Prompt;
                AcquireStep::GetPrompt
            },
            Err(err) => {
                self.phase = AcquirePhase::Over;
                AcquireStep::Fail(err)
            },
        }
    }
}

/// What sending a command through the network driver begins with.
pub enum CommandStart {
    /// The device is not known to be at the default desired privilege
    /// level: that level is to be acquired first.
    Acquire(AcquirePrivilege),
    /// The device is at the default desired privilege level: the command
    /// is under way.
    Send(SendCommand),
    /// The command cannot be sent.
    Fail(ScrapliError),
}

impl Driver {
    /// Starts acquiring the privilege level `target_privilege_level`. With
    /// privilege levels that are set up well this handles any escalation
    /// and de-escalation, the secondary password included. A target that
    /// is no node of the graph of the levels is an error.
    pub fn acquire_privilege_level(&self, target_privilege_level: &str) -> (r: Result<
        AcquirePrivilege,
        ScrapliError,
    >)
        requires
            self.privilege_level_graph.well_formed(),
        ensures
            self.privilege_level_graph.has_node(target_privilege_level@) ==> (r matches Ok(
                acquiring,
            ) && acquiring.target@ == target_privilege_level@ && acquiring.action_count == 0
                && acquiring.phase == AcquirePhase::Start),
            !self.privilege_level_graph.has_node(target_privilege_level@) ==> (r matches Err(e)
                && e.details@ == invalid_level_message(target_privilege_level@)),
    {
        if !self.privilege_level_graph.contains_key(target_privilege_level) {
            return Err(
                ScrapliError {
                    details: message(
                        "requested privilege level '",
                        target_privilege_level,
                        "' is not a valid privilege level",
                    ),
                },
            );
        }
        Ok(
            AcquirePrivilege {
                target: target_privilege_level.to_owned(),
                action_count: 0,
                phase: AcquirePhase::Start,
            },
        )
    }

    /// `start` is what acquiring the default desired privilege level
    /// begins with: the acquisition of that level, or an error where it is
    /// no node of the graph of the levels.
    pub open spec fn acquisition_started(self, start: CommandStart) -> bool {
        let wanted = self.args.default_desired_privilege_level@;
        if self.privilege_level_graph.has_node(wanted) {
            start matches CommandStart::Acquire(acquiring) && acquiring.target@ == wanted
                && acquiring.action_count == 0 && acquiring.phase == AcquirePhase::Start
        } else {
            start matches CommandStart::Fail(e) && e.details@ == invalid_level_message(wanted)
        }
    }

    /// `start` is what the generic driver gives for starting to send
    /// `command` at the instant `now`: the command under way; or, if and
    /// only if the clock cannot hold the deadline of its send, an error.
    pub open spec fn sent_at(
        self,
        command: Seq<char>,
        settings: Settings,
        now: i64,
        start: CommandStart,
    ) -> bool {
        match deadline_of(now, self.generic_driver.channel.effective_timeout(settings.timeout)) {
            Some(deadline) => start matches CommandStart::Send(op)
                && self.generic_driver.is_command_at(op, command, settings, now, deadline),
            None => start matches CommandStart::Fail(e) && e.details@ == TIMEOUT_OUT_OF_RANGE@,
        }
    }

    /// `start` is what starting to send `command` at the instant `now`
    /// gives: where the driver has not noted the default desired privilege
    /// level as the current one, what acquiring it begins with; else what
    /// the generic driver gives for the command.
    pub open spec fn command_start_at(
        self,
        command: Seq<char>,
        settings: Settings,
        now: i64,
        start: CommandStart,
    ) -> bool {
        if self.current_privilege_level@ != self.args.default_desired_privilege_level@ {
            self.acquisition_started(start)
        } else {
            self.sent_at(command, settings, now, start)
        }
    }

    /// Hands the command to the generic driver at the instant `now`.
    fn send_at(&self, command: &str, options: &OperationOptions, now: i64) -> (start: CommandStart)
        ensures
            self.sent_at(
                command@,
                settings_of(options.generic_driver_operation_options),
                now,
                start,
            ),
    {
        match self.generic_driver.send_command_with_options_at(
            command,
            &options.generic_driver_operation_options,
            now,
        ) {
            Ok(op) => CommandStart::Send(op),
            Err(err) => CommandStart::Fail(err),
        }
    }

    /// Starts sending a command to the device at the instant `now`: see
    /// [`Driver::command_start_at`].
    pub fn send_command_with_options_at(
        &self,
        command: &str,
        options: &OperationOptions,
        now: i64,
    ) -> (start: CommandStart)
        requires
            self.privilege_level_graph.well_formed(),
        ensures
            self.command_start_at(
                command@,
                settings_of(options.generic_driver_operation_options),
                now,
                start,
            ),
    {
        if self.current_privilege_level != self.args.default_desired_privilege_level {
            return match self.acquire_privilege_level(
                self.args.default_desired_privilege_level.as_str(),
            ) {
                Ok(acquiring) => CommandStart::Acquire(acquiring),
                Err(err) => CommandStart::Fail(err),
            };
        }
        self.send_at(command, options, now)
    }

    /// Starts sending a command to the device now. Commands are sent at
    /// the default desired privilege level: where the driver has not noted
    /// that level as the current one, it is to be acquired first, and
    /// [`Driver::acquired_for_command`] takes how that ended. Else the
    /// command is under way as the generic driver sends it. The clock is
    /// read, and the rest is [`Driver::send_command_with_options_at`] at
    /// the instant that the clock says. At the default desired privilege
    /// level the command is owed where the timeout is not longer than
    /// [`OWED_TIMEOUT`].
    pub fn send_command_with_options(&self, command: &str, options: &OperationOptions) -> (start:
        CommandStart)
        requires
            self.privilege_level_graph.well_formed(),
        ensures
            exists|now: i64|
                is_clock_instant(now) && #[trigger] self.command_start_at(
                    command@,
                    settings_of(options.generic_driver_operation_options),
                    now,
                    start,
                ),
            self.current_privilege_level@ == self.args.default_desired_privilege_level@
                && self.generic_driver.channel.effective_timeout(
                options.generic_driver_operation_options.channel_operation_options.timeout,
            ) <= OWED_TIMEOUT ==> start is Send,
    {
        let now = utc_now_micros();
        let start = self.send_command_with_options_at(command, options, now);
        assert(is_clock_instant(now) && self.command_start_at(
            command@,
            settings_of(options.generic_driver_operation_options),
            now,
            start,
        ));
        start
    }

    /// The default options.
    fn default_options() -> (options: OperationOptions)
        ensures
            options.privilege_level@.len() == 0,
            settings_of(options.generic_driver_operation_options) == default_settings(
                Seq::empty(),
            ),
    {
        let options = OperationOptions::default();
        assert(crate::channel::operation::pattern_texts(
            options.generic_driver_operation_options.channel_operation_options.interim_prompt_patterns@,
        ) =~= Seq::<Seq<char>>::empty());
        assert(crate::channel::operation::pattern_texts(
            options.generic_driver_operation_options.channel_operation_options.complete_patterns@,
        ) =~= Seq::<Seq<char>>::empty());
        assert(options.generic_driver_operation_options.failed_when_contains@ =~= Seq::<
            String,
        >::empty());
        options
    }

    /// Starts sending a command to the device now, with default options.
    /// See [`Driver::send_command_with_options`].
    pub fn send_command(&self, command: &str) -> (start: CommandStart)
        requires
            self.privilege_level_graph.well_formed(),
        ensures
            exists|now: i64|
                is_clock_instant(now) && #[trigger] self.command_start_at(
                    command@,
                    default_settings(Seq::empty()),
                    now,
                    start,
                ),
            self.current_privilege_level@ == self.args.default_desired_privilege_level@
                && self.generic_driver.channel.args.timeout_ops <= OWED_TIMEOUT ==> start is Send,
    {
        let options = Self::default_options();
        let now = utc_now_micros();
        let start = self.send_command_with_options_at(command, &options, now);
        assert(is_clock_instant(now) && self.command_start_at(
            command@,
            default_settings(Seq::empty()),
            now,
            start,
        ));
        start
    }

    /// Goes on with a command at the instant `now`, after the acquisition
    /// of the default desired privilege level has ended as `acquired`
    /// says: an acquisition that failed fails the command with its error,
    /// and nothing is sent; after one that succeeded the command is under
    /// way as the generic driver sends it (see [`Driver::sent_at`]).
    pub fn acquired_for_command_at(
        &self,
        command: &str,
        options: &OperationOptions,
        acquired: Result<(), ScrapliError>,
        now: i64,
    ) -> (start: CommandStart)
        ensures
            match acquired {
                Err(e) => start == CommandStart::Fail(e),
                Ok(_) => self.sent_at(
                    command@,
                    settings_of(options.generic_driver_operation_options),
                    now,
                    start,
                ),
            },
    {
        match acquired {
            Err(err) => CommandStart::Fail(err),
            Ok(_) => self.send_at(command, options, now),
        }
    }

    /// Goes on with a command now, after the acquisition of the default
    /// desired privilege level has ended as `acquired` says. The clock is
    /// read, and the rest is [`Driver::acquired_for_command_at`] at the
    /// instant that the clock says. After an acquisition that succeeded
    /// the command is owed where the timeout is not longer than
    /// [`OWED_TIMEOUT`].
    pub fn acquired_for_command(
        &self,
        command: &str,
        options: &OperationOptions,
        acquired: Result<(), ScrapliError>,
    ) -> (start: CommandStart)
        ensures
            acquired matches Err(e) ==> start == CommandStart::Fail(e),
            acquired is Ok ==> exists|now: i64|
                is_clock_instant(now) && #[trigger] self.sent_at(
                    command@,
                    settings_of(options.generic_driver_operation_options),
                    now,
                    start,
                ),
            acquired is Ok && self.generic_driver.channel.effective_timeout(
                options.generic_driver_operation_options.channel_operation_options.timeout,
            ) <= OWED_TIMEOUT ==> start is Send,
    {
        let now = utc_now_micros();
        let ghost ended = acquired;
        let start = self.acquired_for_command_at(command, options, acquired, now);
        assert(ended is Ok ==> is_clock_instant(now) && self.sent_at(
            command@,
            settings_of(options.generic_driver_operation_options),
            now,
            start,
        ));
        start
    }

    /// Starts sending configuration lines to the device: the privilege
    /// level of the options, or `"configuration"` where they name none, is
    /// to be acquired, and what comes back is that acquisition. A level
    /// that is no node of the graph of the levels is an error. Once the
    /// acquisition has ended, [`Driver::acquired_for_configs`] takes how it
    /// ended and starts the lines.
    pub fn send_configs(&self, options: &OperationOptions) -> (r: Result<
        AcquirePrivilege,
        ScrapliError,
    >)
        requires
            self.privilege_level_graph.well_formed(),
        ensures
            ({
                let target = if options.privilege_level@.len() == 0 {
                    DEFAULT_CONFIGURATION_PRIVILEGE_LEVEL@
                } else {
                    options.privilege_level@
                };
                if self.privilege_level_graph.has_node(target) {
                    r matches Ok(acquiring) && acquiring.target@ == target && acquiring.action_count
                        == 0 && acquiring.phase == AcquirePhase::Start
                } else {
                    r matches Err(e) && e.details@ == invalid_level_message(target)
                }
            }),
    {
        if options.privilege_level.as_str().is_empty() {
            self.acquire_privilege_level(DEFAULT_CONFIGURATION_PRIVILEGE_LEVEL)
        } else {
            self.acquire_privilege_level(options.privilege_level.as_str())
        }
    }

    /// Goes on with configuration lines at the instant `now`, after the
    /// acquisition of their privilege level has ended as `acquired` says:
    /// an acquisition that failed fails the operation with its error, and
    /// no line is sent; after one that succeeded the lines are sent, in
    /// order, as the generic driver sends a list of commands with the
    /// generic options.
    pub fn acquired_for_configs_at(
        &self,
        configs: &[&str],
        options: &OperationOptions,
        acquired: Result<(), ScrapliError>,
        now: i64,
    ) -> (step: CommandsStep)
        ensures
            match acquired {
                Err(e) => step == CommandsStep::Fail(e),
                Ok(_) => self.generic_driver.commands_started_at(
                    configs@,
                    settings_of(options.generic_driver_operation_options),
                    now,
                    step,
                ),
            },
    {
        match acquired {
            Err(err) => CommandsStep::Fail(err),
            Ok(_) => self.generic_driver.send_commands_with_options_at(
                configs,
                &options.generic_driver_operation_options,
                now,
            ),
        }
    }

    /// Goes on with configuration lines now, after the acquisition of
    /// their privilege level has ended as `acquired` says. The clock is
    /// read, and the rest is [`Driver::acquired_for_configs_at`] at the
    /// instant that the clock says. After an acquisition that succeeded
    /// the first line is owed where there is a line and the timeout is not
    /// longer than [`OWED_TIMEOUT`].
    pub fn acquired_for_configs(
        &self,
        configs: &[&str],
        options: &OperationOptions,
        acquired: Result<(), ScrapliError>,
    ) -> (step: CommandsStep)
        ensures
            acquired matches Err(e) ==> step == CommandsStep::Fail(e),
            acquired is Ok ==> exists|now: i64|
                is_clock_instant(now) && #[trigger] self.generic_driver.commands_started_at(
                    configs@,
                    settings_of(options.generic_driver_operation_options),
                    now,
                    step,
                ),
            acquired is Ok && configs@.len() > 0
                && self.generic_driver.channel.effective_timeout(
                options.generic_driver_operation_options.channel_operation_options.timeout,
            ) <= OWED_TIMEOUT ==> step is Send,
    {
        let now = utc_now_micros();
        let ghost ended = acquired;
        let step = self.acquired_for_configs_at(configs, options, acquired, now);
        assert(ended is Ok ==> is_clock_instant(now) && self.generic_driver.commands_started_at(
            configs@,
            settings_of(options.generic_driver_operation_options),
            now,
            step,
        ));
        step
    }
}

} // verus!
