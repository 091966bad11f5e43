use vstd::prelude::*;
use crate::command::{bound, off_guid_shape, CommandParameter, CommandRequest, CommandResponse, NativeValue};

verus! {

#[verifier::external_type_specification]
#[verifier::external_body]
pub struct ExConfig(tiberius::Config);

/// Why a connection to the database could not be had.
#[derive(Clone, Debug)]
pub enum ConnectionError {
    /// The connection string is missing or cannot be used.
    Configuration,
    /// The server could not be reached; the driver's message.
    Transport(String),
    /// The server was reached but the login or protocol negotiation failed;
    /// the driver's message.
    Handshake(String),
}

/// Why a command did not produce a response.
#[derive(Clone, Debug)]
pub enum ExecutionError {
    /// The statement ran and failed; the driver's message, which describes the
    /// caller's own input.
    Query(String),
    /// No connection could be had. Carries nothing, so that no connection
    /// detail reaches the caller.
    Connection,
}

/// HTTP status for a failed query.
pub const STATUS_BAD_REQUEST: u16 = 400;
/// HTTP status for a failure on the server's side.
pub const STATUS_SERVER_ERROR: u16 = 500;
/// HTTP status for a command that ran.
pub const STATUS_OK: u16 = 200;

/// The message that every connection failure is reported with.
pub open spec fn connection_message() -> Seq<char> {
    seq!['M', 's', 'S', 'q', 'l', ' ', 'c', 'o', 'n', 'n', 'e', 'c', 't', 'i', 'o', 'n']
}

impl ExecutionError {
    /// The HTTP status that reports this error.
    pub open spec fn spec_status(&self) -> u16 {
        match self {
            ExecutionError::Query(_) => STATUS_BAD_REQUEST,
            ExecutionError::Connection => STATUS_SERVER_ERROR,
        }
    }

    /// The message that reports this error to the caller.
    pub open spec fn spec_message(&self) -> Seq<char> {
        match self {
            ExecutionError::Query(m) => m@,
            ExecutionError::Connection => connection_message(),
        }
    }

    pub fn status(&self) -> (r: u16)
        ensures
            r == self.spec_status(),
    {
        match self {
            ExecutionError::Query(_) => STATUS_BAD_REQUEST,
            ExecutionError::Connection => STATUS_SERVER_ERROR,
        }
    }

    pub fn message(&self) -> (r: String)
        ensures
            r@ == self.spec_message(),
    {
        match self {
            ExecutionError::Query(m) => m.clone(),
            ExecutionError::Connection => {
                let r = String::from_str("MsSql connection");
                proof {
                    reveal_strlit("MsSql connection");
                }
                r
            },
        }
    }
}

/// Whether an ADO.NET connection string parses into a driver configuration.
pub uninterp spec fn ado_parses(s: Seq<char>) -> bool;

/// The letters of the key `trustservercertificateca`, lower case.
pub open spec fn ca_lower() -> Seq<char> {
    seq![
        't', 'r', 'u', 's', 't', 's', 'e', 'r', 'v', 'e', 'r', 'c',
        'e', 'r', 't', 'i', 'f', 'i', 'c', 'a', 't', 'e', 'c', 'a',
    ]
}

/// The letters of the key `trustservercertificateca`, upper case.
pub open spec fn ca_upper() -> Seq<char> {
    seq![
        'T', 'R', 'U', 'S', 'T', 'S', 'E', 'R', 'V', 'E', 'R', 'C',
        'E', 'R', 'T', 'I', 'F', 'I', 'C', 'A', 'T', 'E', 'C', 'A',
    ]
}

/// The characters that the connection-string lexer leaves out of a key:
/// the quote and brace delimiters, and line breaks.
pub open spec fn is_delimiter(c: char) -> bool {
    c == '{' || c == '}' || c == '"' || c == '\'' || c == '\n'
}

/// The text with the lexer's delimiters left out. Every key that the lexer
/// reads is a run of this sequence, up to letter case.
pub open spec fn undelimited(s: Seq<char>) -> Seq<char>
    decreases s.len(),
{
    if s.len() == 0 {
        s
    } else if is_delimiter(s.last()) {
        undelimited(s.drop_last())
    } else {
        undelimited(s.drop_last()).push(s.last())
    }
}

/// `t` holds `trustservercertificateca`, in any mix of case, at position `i`.
pub open spec fn ca_word_at(t: Seq<char>, i: int) -> bool {
    &&& 0 <= i
    &&& i + 24 <= t.len()
    &&& forall|j: int| 0 <= j < 24 ==> (t[i + j] == ca_lower()[j] || t[i + j] == ca_upper()[j])
}

/// A connection string that may name a CA certificate file (the key
/// `TrustServerCertificateCA`, however quoted, braced or cased): such a one
/// is refused, since the driver cannot both trust every certificate and pin
/// one.
pub open spec fn names_ca_file(s: Seq<char>) -> bool {
    exists|i: int| ca_word_at(undelimited(s), i)
}

/// Relies on `tiberius::Config::from_ado_string`, then `Config::trust_cert`.
/// Whether the parse succeeds depends on the text alone. Both panic only on a
/// string whose key `trustservercertificateca` names a CA file; the lexer of
/// the `connection-string` crate reads a key from the text's characters in
/// order, leaving out only delimiters and line breaks, and lowercases it, so
/// `requires` excludes every such string.
#[verifier::external_body]
fn parse_trusting(s: &str) -> (r: Option<tiberius::Config>)
    requires
        !names_ca_file(s@),
    ensures
        r is Some <==> ado_parses(s@),
{
    let mut c = tiberius::Config::from_ado_string(s).ok()?;
    c.trust_cert();
    Some(c)
}

fn strip_delimiters(s: &str) -> (r: Vec<char>)
    ensures
        r@ == undelimited(s@),
{
    let n = s.unicode_len();
    let mut out: Vec<char> = Vec::new();
    let mut i: usize = 0;
    assert(s@.subrange(0, 0) =~= Seq::<char>::empty());
    while i < n
        invariant
            n == s@.len(),
            i <= n,
            out@ == undelimited(s@.subrange(0, i as int)),
        decreases n - i,
    {
        let c = s.get_char(i);
        assert(s@.subrange(0, i + 1).drop_last() =~= s@.subrange(0, i as int));
        if !(c == '{' || c == '}' || c == '"' || c == '\'' || c == '\n') {
            out.push(c);
        }
        i = i + 1;
    }
    assert(s@.subrange(0, n as int) =~= s@);
    out
}

fn ca_word_here(t: &Vec<char>, i: usize) -> (r: bool)
    requires
        i + 24 <= t@.len(),
    ensures
        r == ca_word_at(t@, i as int),
{
    let lower: [char; 24] = [
        't', 'r', 'u', 's', 't', 's', 'e', 'r', 'v', 'e', 'r', 'c',
        'e', 'r', 't', 'i', 'f', 'i', 'c', 'a', 't', 'e', 'c', 'a',
    ];
    let upper: [char; 24] = [
        'T', 'R', 'U', 'S', 'T', 'S', 'E', 'R', 'V', 'E', 'R', 'C',
        'E', 'R', 'T', 'I', 'F', 'I', 'C', 'A', 'T', 'E', 'C', 'A',
    ];
    assert(lower@ == ca_lower());
    assert(upper@ == ca_upper());
    let n = t.len();
    let mut j: usize = 0;
    while j < 24
        invariant
            j <= 24,
            i + 24 <= t@.len(),
            n == t@.len(),
            lower@ == ca_lower(),
            upper@ == ca_upper(),
            forall|k: int| 0 <= k < j ==> (t@[i + k] == ca_lower()[k] || t@[i + k] == ca_upper()[k]),
        decreases 24 - j,
    {
        assert(i + j < t@.len());
        let c = t[i + j];
        if c != lower[j] && c != upper[j] {
            return false;
        }
        j = j + 1;
    }
    true
}

fn mentions_ca_file(s: &str) -> (r: bool)
    ensures
        r == names_ca_file(s@),
{
    let t = strip_delimiters(s);
    let n = t.len();
    if n < 24 {
        return false;
    }
    let mut i: usize = 0;
    while i <= n - 24
        invariant
            n == t@.len(),
            t@ == undelimited(s@),
            24 <= n,
            i <= n - 23,
            forall|k: int| 0 <= k < i ==> !ca_word_at(t@, k),
        decreases n - i,
    {
        if ca_word_here(&t, i) {
            assert(ca_word_at(undelimited(s@), i as int));
            return true;
        }
        i = i + 1;
    }
    assert forall|k: int| !ca_word_at(t@, k) by {
        if 0 <= k && k + 24 <= t@.len() {
            assert(k < i);
        }
    }
    false
}

/// The column values that a list of parameters binds, in the same order.
pub open spec fn bound_values(params: Seq<CommandParameter>) -> Seq<NativeValue> {
    params.map_values(|p: CommandParameter| bound(p.value))
}

/// Binding follows the parameters one for one: the `i`-th bound value is the
/// `i`-th parameter's value, and no value is added or dropped.
pub proof fn lemma_binds_in_order(params: Seq<CommandParameter>, i: int)
    requires
        0 <= i < params.len(),
    ensures
        bound_values(params).len() == params.len(),
        bound_values(params)[i] == bound(params[i].value),
{
}

/// A request without parameters binds no value at all.
pub proof fn lemma_no_parameters_no_values(params: Seq<CommandParameter>)
    requires
        params.len() == 0,
    ensures
        bound_values(params) == Seq::<NativeValue>::empty(),
{
    assert(bound_values(params) =~= Seq::<NativeValue>::empty());
}

/// Whatever caused a connection failure, the caller is answered with a
/// server-error status and the one fixed message.
pub proof fn lemma_connection_failure_is_opaque(e: ExecutionError)
    requires
        e == ExecutionError::Connection,
    ensures
        e.spec_status() == STATUS_SERVER_ERROR,
        e.spec_message() == connection_message(),
{
}

/// The SQL Server execution engine: the decisions of one command's run. The
/// connection and the statement's round trip are awaited by the caller, who
/// hands each outcome back here.
pub struct MsSql {}

impl MsSql {
    /// Turns the configured connection string into the driver configuration
    /// to connect with, trusting the server's certificate. A missing string,
    /// one that does not parse, or one that names a CA file gives a
    /// configuration error, before any connection is tried.
    pub fn connection_config(conn_str: Option<String>) -> (r: Result<tiberius::Config, ConnectionError>)
        ensures
            r is Err ==> r == Err::<tiberius::Config, ConnectionError>(ConnectionError::Configuration),
            r is Ok <==> (conn_str is Some && !names_ca_file(conn_str->0@) && ado_parses(conn_str->0@)),
    {
        match conn_str {
            None => Err(ConnectionError::Configuration),
            Some(s) => {
                if mentions_ca_file(s.as_str()) {
                    return Err(ConnectionError::Configuration);
                }
                match parse_trusting(s.as_str()) {
                    Some(c) => Ok(c),
                    None => Err(ConnectionError::Configuration),
                }
            },
        }
    }

    /// The query text and the values to bind to it: each parameter's value,
    /// in the order of the parameters, whatever its name or direction.
    pub fn bind_parameters(req: CommandRequest) -> (r: (String, Vec<NativeValue>))
        ensures
            r.0@ == req.query@,
            r.1@.len() == req.parameters@.len(),
            r.1@ == bound_values(req.parameters@),
            forall|i: int|
                0 <= i < req.parameters@.len() && #[trigger] req.parameters@[i].value is Guid
                    && off_guid_shape(req.parameters@[i].value->Guid_0@) ==> r.1@[i]
                    == NativeValue::Guid(0),
    {
        let CommandRequest { query, parameters } = req;
        let ghost all = parameters@;
        let mut rest = parameters;
        let mut values: Vec<NativeValue> = Vec::new();
        while rest.len() > 0
            invariant
                values@.len() + rest@.len() == all.len(),
                rest@ == all.subrange(values@.len() as int, all.len() as int),
                values@ == bound_values(all.subrange(0, values@.len() as int)),
                forall|i: int|
                    0 <= i < values@.len() && #[trigger] all[i].value is Guid && off_guid_shape(
                        all[i].value->Guid_0@,
                    ) ==> values@[i] == NativeValue::Guid(0),
            decreases rest@.len(),
        {
            let p = rest.remove(0);
            let ghost k = values@.len() as int;
            assert(all.subrange(0, k + 1) == all.subrange(0, k).push(all[k]));
            values.push(p.value.into_sql());
            assert(rest@ == all.subrange(k + 1, all.len() as int));
        }
        assert(all.subrange(0, all.len() as int) == all);
        (query, values)
    }

    /// Maps the driver's outcome of running the statement to the command's
    /// result: the affected-row counts of each batch on success, and a query
    /// error with the driver's message otherwise.
    pub fn complete(outcome: Result<Vec<u64>, String>) -> (r: Result<CommandResponse, ExecutionError>)
        ensures
            match outcome {
                Ok(counts) => r is Ok && ({
                    let resp = r->Ok_0;
                    &&& resp.success
                    &&& resp.message@ == Seq::<char>::empty()
                    &&& resp.row_affected@ == counts@
                    &&& resp.record_sets@.len() == 0
                    &&& resp.output@.len() == 0
                    &&& resp.wf()
                }),
                Err(m) => r is Err && r->Err_0 == ExecutionError::Query(m),
            },
    {
        match outcome {
            Ok(counts) => Ok(CommandResponse::succeeded(counts)),
            Err(m) => Err(ExecutionError::Query(m)),
        }
    }

    /// The error that a failed connection attempt is reported with: the same
    /// for every cause, so that no host, credential or driver text reaches the
    /// caller.
    pub fn connection_failed(e: ConnectionError) -> (r: ExecutionError)
        ensures
            r == ExecutionError::Connection,
    {
        ExecutionError::Connection
    }

    /// The HTTP status and body that report a command's result.
    pub fn respond(result: Result<CommandResponse, ExecutionError>) -> (r: (u16, CommandResponse))
        ensures
            match result {
                Ok(resp) => r.0 == STATUS_OK && r.1 == resp,
                Err(e) => {
                    &&& r.0 == e.spec_status()
                    &&& !r.1.success
                    &&& r.1.message@ == e.spec_message()
                    &&& r.1.row_affected@.len() == 0
                    &&& r.1.record_sets@.len() == 0
                    &&& r.1.output@.len() == 0
                },
            },
    {
        match result {
            Ok(resp) => (STATUS_OK, resp),
            Err(e) => (e.status(), CommandResponse::failed(e.message())),
        }
    }
}

} // verus!
