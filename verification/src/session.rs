//! The request executor's state machine and its response judgements.
//!
//! One session runs two sequential HTTP calls: the login POST, then the
//! search GET. The machine starts awaiting the login outcome, reaches
//! `LoggedIn` only on HTTP 200, and accepts a search outcome only from
//! `LoggedIn`: a failed login is terminal, so no search can follow it.
//! Every failure judgement fixes the exact error message, with the HTTP
//! status rendered in decimal.

use vstd::prelude::*;
use vstd::string::StringExecFns;
use crate::errors::RequestError;
use crate::strutil::push_char;

verus! {

/// The decimal digit character for a value below 10.
pub open spec fn digit_char(d: nat) -> char
    recommends
        d < 10,
{
    ((48 + d) as u8) as char
}

/// The decimal rendering of a number, most significant digit first,
/// without leading zeros (a lone zero for 0).
pub open spec fn dec_rep(n: nat) -> Seq<char>
    decreases n,
{
    if n < 10 {
        seq![digit_char(n)]
    } else {
        dec_rep(n / 10) + seq![digit_char(n % 10)]
    }
}

/// Renders a status code in decimal.
pub fn u16_to_decimal(n: u16) -> (r: String)
    ensures
        r@ == dec_rep(n as nat),
    decreases n,
{
    let mut s: String;
    if n >= 10 {
        proof {
            assert(n / 10 < n) by (nonlinear_arith)
                requires
                    n >= 10,
            ;
        }
        s = u16_to_decimal(n / 10);
    } else {
        s = String::new();
    }
    let d = n % 10;
    push_char(&mut s, (48 + d as u8) as char);
    proof {
        if n >= 10 {
            assert(s@ =~= dec_rep((n / 10) as nat) + seq![digit_char((n % 10) as nat)]);
        } else {
            assert(s@ =~= seq![digit_char(n as nat)]);
        }
    }
    s
}

/// The message of a failed fetch of the login page.
pub open spec fn page_failure_message(status: u16) -> Seq<char> {
    "Error fetching login page; HTTP response: "@ + dec_rep(status as nat)
}

/// The message of a login POST answered with a non-success status.
pub open spec fn login_failure_message(status: u16, body: Seq<char>) -> Seq<char> {
    "Error sending request; HTTP response: "@ + dec_rep(status as nat) + ", Body: "@ + body
}

/// The message of a login POST that failed in transport.
pub open spec fn login_transport_message(err: Seq<char>) -> Seq<char> {
    "Error sending request: "@ + err
}

/// The message of a search GET answered with a non-success status.
pub open spec fn search_failure_message(status: u16) -> Seq<char> {
    "failed to search; HTTP status code: "@ + dec_rep(status as nat)
}

/// The message of a search GET that failed in transport.
pub open spec fn search_transport_message(err: Seq<char>) -> Seq<char> {
    "Request to search endpoint failed: "@ + err
}

/// The message of a search response whose body could not be decoded.
pub open spec fn search_decode_message(err: Seq<char>) -> Seq<char> {
    "Could not parse text from response: "@ + err
}

/// The fixed URL of the portal's login page, target of both the page
/// fetch and the login POST.
pub fn login_url() -> (r: &'static str)
    ensures
        r@ == "https://auth.denodo.com/login"@,
{
    "https://auth.denodo.com/login"
}

/// Judges the fetch of the login page, before token extraction: only
/// HTTP 200 lets the resolver go on.
pub fn login_page_response(status: u16) -> (r: Result<(), RequestError>)
    ensures
        r is Ok <==> status == 200,
        r is Err ==> r->Err_0@ == page_failure_message(status),
{
    if status == 200 {
        Ok(())
    } else {
        let mut m = "Error fetching login page; HTTP response: ".to_owned();
        let d = u16_to_decimal(status);
        m.append(d.as_str());
        Err(RequestError::new(m.as_str()))
    }
}

/// Where the executor stands between its two HTTP calls.
pub enum SessionState {
    /// The login POST has not been judged yet.
    AwaitingLogin,
    /// The login POST came back with HTTP 200; the search may go out.
    LoggedIn,
    /// A call failed; the session is over without a result.
    Failed,
    /// The search came back decoded; the session is over with a result.
    Succeeded,
}

/// The request executor's state machine. It owns no transport: the
/// caller performs each HTTP call and hands the outcome in, and the
/// machine judges it and moves on.
pub struct Session {
    /// Where the session stands.
    pub state: SessionState,
}

impl Session {
    /// A fresh session, before the login POST is judged.
    pub fn new() -> (s: Session)
        ensures
            s.state is AwaitingLogin,
    {
        Session { state: SessionState::AwaitingLogin }
    }

    /// Judges the login POST: HTTP 200 authenticates the session, any
    /// other status ends it with an error naming the status and the
    /// response body.
    pub fn login_response(&mut self, status: u16, body: &str) -> (r: Result<(), RequestError>)
        requires
            old(self).state is AwaitingLogin,
        ensures
            r is Ok <==> status == 200,
            status == 200 ==> final(self).state is LoggedIn,
            status != 200 ==> final(self).state is Failed && r->Err_0@ == login_failure_message(
                status,
                body@,
            ),
    {
        if status == 200 {
            self.state = SessionState::LoggedIn;
            Ok(())
        } else {
            self.state = SessionState::Failed;
            let mut m = "Error sending request; HTTP response: ".to_owned();
            let d = u16_to_decimal(status);
            m.append(d.as_str());
            m.append(", Body: ");
            m.append(body);
            Err(RequestError::new(m.as_str()))
        }
    }

    /// Ends the session on a login POST that failed in transport.
    pub fn login_transport_failure(&mut self, err: &str) -> (r: RequestError)
        requires
            old(self).state is AwaitingLogin,
        ensures
            final(self).state is Failed,
            r@ == login_transport_message(err@),
    {
        self.state = SessionState::Failed;
        let mut m = "Error sending request: ".to_owned();
        m.append(err);
        RequestError::new(m.as_str())
    }

    /// Judges the search GET, reachable only once the login succeeded:
    /// HTTP 200 with a decodable body yields the raw body as the final
    /// result; anything else ends the session with an error.
    pub fn search_response(&mut self, status: u16, body: Result<String, String>) -> (r: Result<
        String,
        RequestError,
    >)
        requires
            old(self).state is LoggedIn,
        ensures
            r is Ok <==> (status == 200 && body is Ok),
            r is Ok ==> final(self).state is Succeeded && r->Ok_0@ == body->Ok_0@,
            status != 200 ==> final(self).state is Failed && r->Err_0@ == search_failure_message(
                status,
            ),
            status == 200 && body is Err ==> final(self).state is Failed && r->Err_0@
                == search_decode_message(body->Err_0@),
    {
        if status != 200 {
            self.state = SessionState::Failed;
            let mut m = "failed to search; HTTP status code: ".to_owned();
            let d = u16_to_decimal(status);
            m.append(d.as_str());
            Err(RequestError::new(m.as_str()))
        } else {
            match body {
                Ok(text) => {
                    self.state = SessionState::Succeeded;
                    Ok(text)
                },
                Err(e) => {
                    self.state = SessionState::Failed;
                    let mut m = "Could not parse text from response: ".to_owned();
                    m.append(e.as_str());
                    Err(RequestError::new(m.as_str()))
                },
            }
        }
    }

    /// Ends the session on a search GET that failed in transport.
    pub fn search_transport_failure(&mut self, err: &str) -> (r: RequestError)
        requires
            old(self).state is LoggedIn,
        ensures
            final(self).state is Failed,
            r@ == search_transport_message(err@),
    {
        self.state = SessionState::Failed;
        let mut m = "Request to search endpoint failed: ".to_owned();
        m.append(err);
        RequestError::new(m.as_str())
    }
}

/// A failed login names the HTTP status: the decimal rendering of the
/// status stands verbatim inside the error message, so a caller reading
/// the message sees which status ended the session.
pub proof fn lemma_login_failure_names_status(status: u16, body: Seq<char>)
    ensures
        exists|off: int|
            0 <= off && off + dec_rep(status as nat).len() <= login_failure_message(
                status,
                body,
            ).len() && #[trigger] login_failure_message(status, body).subrange(
                off,
                off + dec_rep(status as nat).len(),
            ) == dec_rep(status as nat),
{
    let p = "Error sending request; HTTP response: "@;
    let d = dec_rep(status as nat);
    let m = login_failure_message(status, body);
    assert(m.subrange(p.len() as int, (p.len() + d.len()) as int) =~= d);
}

} // verus!
