use crate::channel::args::Args;
use crate::channel::authenticate::Authenticate;
use crate::errors::ScrapliError;
use crate::transport::base::{InChannelAuthData, InChannelAuthType};
use crate::util::queue::Queue;
use vstd::prelude::*;
use vstd::utf8::encode_utf8;

verus! {

/// The message of the error for a read loop that is gone.
pub const READ_LOOP_GONE: &'static str =
    "read error channel disconnected, this should not happen!";

/// The message of the error for a queue that can take no more chunks.
pub const QUEUE_FULL: &'static str = "the channel read queue is full";

/// The channel: the settings that every operation on one device shares.
/// Operations are made by its methods and then driven step by step.
pub struct Channel {
    /// The arguments that the channel was created with.
    pub args: Args,
}

/// What the read loop has reported since the last read.
pub enum ReadSignal {
    /// Nothing.
    Quiet,
    /// An error that it met.
    Failed(ScrapliError),
    /// The read loop is gone.
    Disconnected,
}

impl Channel {
    /// Returns a new instance of `Channel` with the given settings.
    pub fn new(args: Args) -> (channel: Self)
        ensures
            channel.args == args,
    {
        Channel { args }
    }

    /// The authentication that opening the channel begins with, for what
    /// the transport asks: none where the channel bypasses it; else one of
    /// the kind that the transport names, with its credentials and the
    /// patterns of the channel.
    pub fn open(&self, auth_data: &InChannelAuthData) -> (auth: Option<Authenticate>)
        ensures
            self.args.auth_bypass ==> auth.is_none(),
            !self.args.auth_bypass ==> (auth matches Some(a) && {
                &&& a.well_formed()
                &&& a.is_start()
                &&& a.auth_type == auth_data.auth_type
                &&& a.prompt_pattern@ == self.args.prompt_pattern@
                &&& a.password_pattern@ == self.args.password_pattern@
                &&& a.password@ == encode_utf8(auth_data.password@)
                &&& match auth_data.auth_type {
                    InChannelAuthType::Telnet => {
                        &&& a.username_pattern@ == self.args.username_pattern@
                        &&& a.user@ == encode_utf8(auth_data.user@)
                    },
                    InChannelAuthType::SSH => {
                        &&& a.passphrase_pattern@ == self.args.passphrase_pattern@
                        &&& a.passphrase@ == encode_utf8(auth_data.private_key_passphrase@)
                    },
                }
            }),
    {
        if self.args.auth_bypass {
            return None;
        }
        match auth_data.auth_type {
            InChannelAuthType::Telnet => Some(
                self.authenticate_telnet(
                    auth_data.user.as_str().as_bytes(),
                    auth_data.password.as_str().as_bytes(),
                ),
            ),
            InChannelAuthType::SSH => Some(
                self.authenticate_ssh(
                    auth_data.password.as_str().as_bytes(),
                    auth_data.private_key_passphrase.as_str().as_bytes(),
                ),
            ),
        }
    }

    /// Puts what authentication has read beyond its needs back at the
    /// front of the queue, so that the first read after opening returns
    /// it. Nothing is put back where nothing was left. An error comes back,
    /// and the queue stays as it is, if and only if something was left and
    /// the queue is full.
    pub fn requeue_auth_residue(&self, queue: &mut Queue, auth_buff: Vec<u8>) -> (r: Result<
        (),
        ScrapliError,
    >)
        requires
            old(queue).well_formed(),
        ensures
            final(queue).well_formed(),
            auth_buff@.len() == 0 ==> r.is_ok() && final(queue)@ == old(queue)@,
            auth_buff@.len() > 0 && old(queue)@.len() < u32::MAX ==> r.is_ok() && final(queue)@
                == seq![auth_buff@] + old(queue)@,
            auth_buff@.len() > 0 && old(queue)@.len() >= u32::MAX ==> (r matches Err(e)
                && e.details@ == QUEUE_FULL@) && final(queue)@ == old(queue)@,
    {
        if auth_buff.len() == 0 {
            return Ok(());
        }
        if queue.get_depth() == u32::MAX {
            return Err(ScrapliError::new(QUEUE_FULL));
        }
        queue.requeue(auth_buff);
        Ok(())
    }

    /// Reads from the queue that the read loop fills. An error that the
    /// read loop has reported comes first and leaves the queue alone; so
    /// does a read loop that is gone. Else the chunk at the front of the
    /// queue is taken out and returned, an empty chunk where the queue is
    /// empty.
    pub fn read(&self, queue: &mut Queue, signal: ReadSignal) -> (r: Result<Vec<u8>, ScrapliError>)
        requires
            old(queue).well_formed(),
        ensures
            final(queue).well_formed(),
            match signal {
                ReadSignal::Failed(err) => r == Err::<Vec<u8>, ScrapliError>(err) && final(queue)@
                    == old(queue)@,
                ReadSignal::Disconnected => (r matches Err(e) && e.details@ == READ_LOOP_GONE@)
                    && final(queue)@ == old(queue)@,
                ReadSignal::Quiet => r matches Ok(chunk) && if old(queue)@.len() == 0 {
                    chunk@.len() == 0 && final(queue)@ == old(queue)@
                } else {
                    chunk@ == old(queue)@[0] && final(queue)@ == old(queue)@.drop_first()
                },
            },
    {
        match signal {
            ReadSignal::Failed(err) => Err(err),
            ReadSignal::Disconnected => Err(ScrapliError::new(READ_LOOP_GONE)),
            ReadSignal::Quiet => {
                if queue.get_depth() == 0 {
                    return Ok(Vec::new());
                }
                Ok(queue.dequeue())
            },
        }
    }
}

} // verus!
