//! Sending commands to the configuration thread and waiting for their
//! completion.

use vstd::prelude::*;
use std::sync::mpsc::{Receiver, SyncSender};
use crate::types::config::ConfigCommand;

verus! {

#[verifier::external_type_specification]
#[verifier::external_body]
#[verifier::reject_recursive_types(T)]
pub struct ExSyncSender<T>(SyncSender<T>);

#[verifier::external_type_specification]
#[verifier::external_body]
#[verifier::reject_recursive_types(T)]
pub struct ExReceiver<T>(Receiver<T>);

/// The reply sender `tx` sends to the channel that `rx` receives from.
pub uninterp spec fn reply_pair(
    tx: SyncSender<Result<(), InitError>>,
    rx: Receiver<Result<(), InitError>>,
) -> bool;

/// `message` was queued on the channel that `sender` sends to.
pub uninterp spec fn queued(sender: SyncSender<CommandMessage>, message: CommandMessage) -> bool;

/// `answer` was sent with the reply sender `tx`.
pub uninterp spec fn replied(tx: SyncSender<Result<(), InitError>>, answer: Result<(), InitError>) -> bool;

/// `std::sync::mpsc::sync_channel(1)`: a reply channel that holds one
/// message; the sender sends to the receiver.
#[verifier::external_body]
fn reply_channel() -> (r: (SyncSender<Result<(), InitError>>, Receiver<Result<(), InitError>>))
    ensures
        reply_pair(r.0, r.1),
{
    std::sync::mpsc::sync_channel(1)
}

/// `SyncSender::send` on the command channel: when it succeeds, the message
/// was queued; it fails when the receiving side is gone, which depends on
/// the other thread.
#[verifier::external_body]
fn send_command(sender: &SyncSender<CommandMessage>, message: CommandMessage) -> (r: bool)
    ensures
        r ==> queued(*sender, message),
{
    sender.send(message).is_ok()
}

/// `Receiver::recv` on a reply channel: an answer that a sender of this
/// channel sent, or none once every sender is gone; which one comes depends
/// on the other thread.
#[verifier::external_body]
fn receive_reply(receiver: &Receiver<Result<(), InitError>>) -> (r: Option<Result<(), InitError>>)
    ensures
        r matches Some(v) ==> exists|tx: SyncSender<Result<(), InitError>>|
            reply_pair(tx, *receiver) && #[trigger] replied(tx, v),
{
    receiver.recv().ok()
}

/// Whether `std::io::Error::kind` gives `ErrorKind::BrokenPipe` for `e`.
pub uninterp spec fn kind_is_broken_pipe(e: std::io::Error) -> bool;

/// `std::io::Error::from(ErrorKind::BrokenPipe)`: an error whose kind is
/// `BrokenPipe`, as the documentation of `From<ErrorKind>` and of `kind` says.
#[verifier::external_body]
fn broken_pipe() -> (r: std::io::Error)
    ensures
        kind_is_broken_pipe(r),
{
    std::io::Error::from(std::io::ErrorKind::BrokenPipe)
}

/// `std::io::Error::kind`, compared with `ErrorKind::BrokenPipe`; the answer
/// depends on the error alone and is named `kind_is_broken_pipe`.
#[verifier::external_body]
fn error_is_broken_pipe(e: &std::io::Error) -> (r: bool)
    ensures
        r == kind_is_broken_pipe(*e),
{
    e.kind() == std::io::ErrorKind::BrokenPipe
}

/// Why the configuration could not do what was asked.
#[derive(Debug)]
pub enum InitError {
    /// An I/O failure while doing `action`, on `path` if one is involved.
    Io { action: &'static str, path: Option<String>, source: std::io::Error },
    /// A Lua failure while doing `action`.
    Mlua { action: &'static str },
}

/// `e` is an I/O failure while doing `action`, on no path, caused by a broken
/// pipe.
pub open spec fn is_io_failure(e: InitError, action: Seq<char>) -> bool {
    e matches InitError::Io { action: a, path, source } && a@ == action && path is None
        && kind_is_broken_pipe(source)
}

impl InitError {
    /// The failure is an I/O failure caused by a broken pipe.
    pub fn is_broken_pipe(&self) -> (r: bool)
        ensures
            r == (*self matches InitError::Io { source, .. } && kind_is_broken_pipe(source)),
    {
        match self {
            InitError::Io { source, .. } => error_is_broken_pipe(source),
            InitError::Mlua { .. } => false,
        }
    }
}

/// A command and the channel on which its completion is reported.
pub type CommandMessage = (ConfigCommand, SyncSender<Result<(), InitError>>);

/// A command that was sent; its completion can be waited for.
pub struct PendingCommand(Receiver<Result<(), InitError>>);

/// What waiting gives once the reply, if any, is in: the configuration's
/// own answer, or a failure when the thread ended without answering.
pub open spec fn wait_outcome(received: Option<Result<(), InitError>>, r: Result<(), InitError>) -> bool {
    match received {
        Some(answer) => r == answer,
        None => r matches Err(e) && is_io_failure(
            e,
            "config thread died before completing command"@,
        ),
    }
}

impl PendingCommand {
    /// The channel on which the reply comes.
    pub closed spec fn reply(&self) -> Receiver<Result<(), InitError>> {
        self.0
    }

    /// What sending a command gives, once it is known whether the message
    /// reached the configuration thread's channel: the command is then
    /// pending on `reply`; otherwise sending failed.
    pub fn from_send(sent: bool, reply: Receiver<Result<(), InitError>>) -> (r: Result<
        PendingCommand,
        InitError,
    >)
        ensures
            sent ==> (r matches Ok(p) && p.reply() == reply),
            !sent ==> (r matches Err(e) && is_io_failure(e, "send command to config thread"@)),
    {
        if sent {
            Ok(PendingCommand(reply))
        } else {
            Err(
                InitError::Io {
                    action: "send command to config thread",
                    path: None,
                    source: broken_pipe(),
                },
            )
        }
    }

    /// Turns the reply into the command's result.
    pub fn outcome(received: Option<Result<(), InitError>>) -> (r: Result<(), InitError>)
        ensures
            wait_outcome(received, r),
    {
        match received {
            Some(answer) => answer,
            None => Err(
                InitError::Io {
                    action: "config thread died before completing command",
                    path: None,
                    source: broken_pipe(),
                },
            ),
        }
    }

    /// Waits until the configuration thread has carried out the command: the
    /// answer sent on this command's reply channel, or the failure when every
    /// sender of that channel is gone without answering.
    pub fn wait(self) -> (r: Result<(), InitError>)
        ensures
            exists|received: Option<Result<(), InitError>>|
                #[trigger] wait_outcome(received, r) && (received matches Some(v) ==> exists|
                    tx: SyncSender<Result<(), InitError>>,
                | reply_pair(tx, self.reply()) && #[trigger] replied(tx, v)),
    {
        let received = receive_reply(&self.0);
        let r = Self::outcome(received);
        assert(wait_outcome(received, r));
        r
    }
}

/// The sending end of the configuration thread's command channel.
pub struct CommandHandle(SyncSender<CommandMessage>);

impl CommandHandle {
    /// The channel on which the handle sends commands.
    pub closed spec fn channel(&self) -> SyncSender<CommandMessage> {
        self.0
    }

    /// A handle on the given channel.
    pub fn new(sender: SyncSender<CommandMessage>) -> (r: Self)
        ensures
            r.channel() == sender,
    {
        CommandHandle(sender)
    }

    /// Sends `command` with a fresh reply channel. Sending fails when the
    /// configuration thread is gone.
    pub fn send(&self, command: ConfigCommand) -> (r: Result<PendingCommand, InitError>)
        ensures
            r matches Err(e) ==> is_io_failure(e, "send command to config thread"@),
            r matches Ok(p) ==> exists|tx: SyncSender<Result<(), InitError>>|
                #[trigger] reply_pair(tx, p.reply()) && queued(self.channel(), (command, tx)),
    {
        let (done_tx, done_rx) = reply_channel();
        let ghost tx = done_tx;
        let sent = send_command(&self.0, (command, done_tx));
        let r = PendingCommand::from_send(sent, done_rx);
        if let Ok(p) = &r {
            assert(reply_pair(tx, p.reply()) && queued(self.channel(), (command, tx)));
        }
        r
    }
}

} // verus!
