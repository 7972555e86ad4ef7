//! The client as a whole.
use crate::cli::command::Command;
use crate::cli::request::{header_bytes, header_char, header_value, new_uuid, request_id};
use http::header::{HeaderValue, InvalidHeaderValue};
use vstd::prelude::*;
use vstd::string::StringSliceAdditionalSpecFns;
use vstd::utf8::encode_utf8;

verus! {

/// Timeout for remote calls in seconds, unless another one is given.
pub const DEFAULT_TIMEOUT: u64 = 60;

/// What the client was asked to do.
pub struct Cli {
    /// Base URL used for requests to the RPC server.
    pub rpc_url: String,
    /// Timeout for RPC requests in seconds.
    pub timeout: Option<u64>,
    /// Whether HTTP is logged.
    pub verbose: bool,
    /// The command.
    pub command: Command,
}

/// What the client does: it logs if `verbose`, connects to `rpc_url`, gives up on a
/// call after `timeout_secs`, sends `request_id_header` with it, and then handles the
/// command.
pub struct Session {
    pub verbose: bool,
    pub rpc_url: String,
    pub timeout_secs: u64,
    pub request_id: String,
    pub request_id_header: HeaderValue,
    pub command: Command,
}

/// Whether `session` does what `cli` asks, under the given request identifier.
pub open spec fn serves(cli: Cli, id: Seq<char>, session: Session) -> bool {
    &&& session.verbose == cli.verbose
    &&& session.rpc_url == cli.rpc_url
    &&& session.timeout_secs == match cli.timeout {
        Some(secs) => secs,
        None => 60,
    }
    &&& session.request_id@ == id
    &&& header_bytes(session.request_id_header) == encode_utf8(id)
    &&& session.command == cli.command
}

impl Cli {
    /// What to do, under a request identifier that is made up for it.
    pub fn run(self) -> (session: Session)
        ensures
            request_id(session.request_id@),
            serves(self, session.request_id@, session),
    {
        let id = new_uuid();
        self.run_as(id).unwrap()
    }

    /// What to do, under the given request identifier. An identifier that no header
    /// can hold is an error.
    pub fn run_as(self, id: String) -> (r: Result<Session, InvalidHeaderValue>)
        ensures
            r is Ok <==> (forall|i: int| 0 <= i < id@.len() ==> header_char(#[trigger] id@[i])),
            r matches Ok(session) ==> serves(self, id@, session),
    {
        match header_value(id.as_str()) {
            Ok(request_id_header) => {
                let timeout_secs = self.timeout.unwrap_or(DEFAULT_TIMEOUT);
                Ok(
                    Session {
                        verbose: self.verbose,
                        rpc_url: self.rpc_url,
                        timeout_secs,
                        request_id: id,
                        request_id_header,
                        command: self.command,
                    },
                )
            },
            Err(error) => Err(error),
        }
    }
}

/// A session does what was asked for: the given timeout counts, a minute if there is none, and
/// everything else is as it was given. Its header holds the identifier of the request.
pub proof fn a_session_follows_what_was_asked(cli: Cli, id: Seq<char>, session: Session)
    requires
        serves(cli, id, session),
    ensures
        cli.timeout matches Some(secs) ==> session.timeout_secs == secs,
        cli.timeout is None ==> session.timeout_secs == 60,
        session.rpc_url@ == cli.rpc_url@,
        session.verbose <==> cli.verbose,
        session.command == cli.command,
        session.request_id@ == id,
        header_bytes(session.request_id_header) == encode_utf8(session.request_id@),
{
}

} // verus!
