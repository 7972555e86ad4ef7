//! Where the node takes remote calls.
use crate::text::{decimal, decimal_text};
use crate::types::THIS_SIDECHAIN;
use vstd::prelude::*;
use vstd::string::StringExecFns;

verus! {

/// `url::ParseError`: why a text is no URL.
#[verifier::external_type_specification]
#[verifier::external_body]
pub struct ExUrlParseError(url::ParseError);

/// The text of the URL that `url::Url::parse` reads from a text. `None` if the text is
/// no absolute URL.
pub uninterp spec fn parsed_url(text: Seq<char>) -> Option<Seq<char>>;

/// The text `http://localhost:port`.
pub open spec fn localhost(port: nat) -> Seq<char> {
    "http://localhost:"@ + decimal(port)
}

/// Whether a text is `http://localhost:port`, for a port that is not the default one.
pub open spec fn is_localhost(text: Seq<char>) -> bool {
    exists|port: nat| port <= 65535 && port != 80 && text == #[trigger] localhost(port)
}

/// A URL without a path, with the path `/`.
pub open spec fn with_root(url: Seq<char>) -> Seq<char> {
    url.push('/')
}

/// Calls `url::Url::parse`, and hands the URL out as text. The result is named by
/// `parsed_url`. A URL of the scheme `http` at the host `localhost`, with a port
/// other than the default one and nothing behind it, is one, and gets the path `/`.
#[verifier::external_body]
pub(crate) fn parse_url(text: &str) -> (r: Result<String, url::ParseError>)
    ensures
        match r {
            Ok(url) => parsed_url(text@) == Some(url@),
            Err(_) => parsed_url(text@) is None,
        },
        match r {
            Ok(url) => is_localhost(text@) ==> url@ == with_root(text@),
            Err(_) => !is_localhost(text@),
        },
{
    url::Url::parse(text).map(|url| url.into())
}

/// URL at which the node takes remote calls, unless another one is given.
pub fn default_rpc_url() -> (url: String)
    ensures
        url@ == localhost(6098).push('/'),
{
    let text = "http://localhost:60".to_string().concat(
        decimal_text(THIS_SIDECHAIN as u64).as_str(),
    );
    proof {
        reveal_strlit("http://localhost:60");
        reveal_strlit("http://localhost:");
        reveal_with_fuel(decimal, 5);
        assert(text@ =~= localhost(6098));
    }
    parse_url(text.as_str()).unwrap()
}

} // verus!
