//! The connection state machine ("the shim").
//!
//! One value of [`PostgresShim`] owns a single client connection: startup
//! negotiation, authentication, and the command loop over the simple and
//! extended query sub-protocols. The machine is pure: the transport reads
//! and writes the wire, the external engine parses, compiles and executes,
//! and every decision in between is a function here, from the current state
//! and the typed event to the next state and the backend messages owed.
use crate::messages::AuthenticationRequest;
use crate::messages::BackendMessage;
use crate::messages::Bind;
use crate::messages::CommandCompleteTag;
use crate::messages::ConnectionError;
use crate::messages::Describe;
use crate::messages::ErrorCode;
use crate::messages::ErrorKind;
use crate::messages::ErrorSeverity;
use crate::messages::Execute;
use crate::messages::FrontendMessage;
use crate::messages::Parse;
use crate::messages::PasswordMessage;
use crate::messages::Query;
use crate::messages::RowDescriptionField;
use crate::messages::StartupMessage;
use crate::messages::TransactionStatus;
use crate::messages::SSL_REQUEST_PROTOCOL;
use crate::messages::TEXT_TYPE_OID;
use crate::numfmt::dec_str;
use crate::numfmt::i64_to_decimal;
use crate::strmap::StrMap;
use vstd::pervasive::unreached;
use vstd::prelude::*;
use vstd::string::StringExecFns;

verus! {

/// The opaque context the authentication provider returns on success.
pub struct AuthContext {
    pub user: String,
}

/// An error reported by an external collaborator (parser, compiler,
/// metadata transport, execution engine).
#[derive(Debug)]
pub struct CubeError {
    pub message: String,
}

/// The parsed form of one SQL statement, as the external parser hands it
/// back. The machine never looks inside it; it only stores it and passes it
/// on to the compiler.
pub struct Statement {
    pub sql: String,
}

/// A named prepared statement, created by `Parse`.
pub struct PreparedStatement {
    pub query: Statement,
}

#[derive(Clone, Copy, PartialEq, Eq, Structural, Debug)]
pub struct StatusFlags {
    pub flags: u32,
}

/// One value of a result cell. Floating-point and timestamp values are
/// carried as their canonical text, produced at the engine boundary: the
/// core holds no floating point, and the wire format wants the text anyway.
pub enum TableValue {
    Null,
    String(String),
    Int64(i64),
    Boolean(bool),
    Float64(String),
    Timestamp(String),
}

pub struct Column {
    pub name: String,
}

pub struct Row {
    pub values: Vec<TableValue>,
}

/// A tabular result: column names and rows of typed values.
pub struct DataFrame {
    pub columns: Vec<Column>,
    pub rows: Vec<Row>,
}

/// What the external compiler returns for one statement. A select plan's
/// executable part stays with the engine; the machine keeps only the status
/// and asks the caller to run the plan to completion.
pub enum QueryPlan {
    MetaOk(StatusFlags),
    MetaTabular(StatusFlags, DataFrame),
    DataFusionSelect(StatusFlags),
}

/// The outcome of running one query to completion.
pub enum QueryResponse {
    Completed(StatusFlags),
    ResultSet(StatusFlags, DataFrame),
}

/// A bound, ready-to-execute instance of a prepared statement.
pub struct Portal {
    pub plan: QueryPlan,
}

/// What the authentication provider answers: an opaque context and,
/// optionally, the password it expects.
pub struct AuthenticateResponse {
    pub context: AuthContext,
    pub password: Option<String>,
}

#[derive(Clone, Copy, PartialEq, Eq, Structural, Debug)]
pub enum ConnectionPhase {
    AwaitingStartup,
    SslNegotiated,
    AwaitingPassword,
    Ready,
    Terminated,
}

#[derive(Clone, Copy, PartialEq, Eq, Structural, Debug)]
pub enum StartupState {
    Success,
    SslRequested,
    Denied,
}

impl Clone for AuthContext {
    fn clone(&self) -> (r: Self)
        ensures
            r == *self,
    {
        AuthContext { user: self.user.clone() }
    }
}

impl Clone for Statement {
    fn clone(&self) -> (r: Self)
        ensures
            r == *self,
    {
        Statement { sql: self.sql.clone() }
    }
}

impl Clone for PreparedStatement {
    fn clone(&self) -> (r: Self)
        ensures
            r == *self,
    {
        PreparedStatement { query: self.query.clone() }
    }
}

impl Clone for TableValue {
    fn clone(&self) -> (r: Self)
        ensures
            r == *self,
    {
        match self {
            TableValue::Null => TableValue::Null,
            TableValue::String(v) => TableValue::String(v.clone()),
            TableValue::Int64(v) => TableValue::Int64(*v),
            TableValue::Boolean(v) => TableValue::Boolean(*v),
            TableValue::Float64(v) => TableValue::Float64(v.clone()),
            TableValue::Timestamp(v) => TableValue::Timestamp(v.clone()),
        }
    }
}

impl Clone for Column {
    fn clone(&self) -> (r: Self)
        ensures
            r == *self,
    {
        Column { name: self.name.clone() }
    }
}

impl Clone for Row {
    fn clone(&self) -> (r: Self)
        ensures
            r.values@ == self.values@,
    {
        let mut values: Vec<TableValue> = Vec::new();
        let n = self.values.len();
        for i in 0..n
            invariant
                n == self.values@.len(),
                values@.len() == i,
                forall|j: int| 0 <= j < i ==> values@[j] == self.values@[j],
        {
            values.push(self.values[i].clone());
        }
        proof {
            assert(values@ =~= self.values@);
        }
        Row { values }
    }
}

/// Field-level equality of tabular results.
pub open spec fn frame_equiv(a: DataFrame, b: DataFrame) -> bool {
    &&& a.columns@ == b.columns@
    &&& a.rows@.len() == b.rows@.len()
    &&& forall|i: int|
        0 <= i < a.rows@.len() ==> (#[trigger] a.rows@[i]).values@ == b.rows@[i].values@
}

/// Field-level equality of compiled plans.
pub open spec fn plan_equiv(a: QueryPlan, b: QueryPlan) -> bool {
    match (a, b) {
        (QueryPlan::MetaOk(s1), QueryPlan::MetaOk(s2)) => s1 == s2,
        (QueryPlan::MetaTabular(s1, f1), QueryPlan::MetaTabular(s2, f2)) => s1 == s2 && frame_equiv(
            f1,
            f2,
        ),
        (QueryPlan::DataFusionSelect(s1), QueryPlan::DataFusionSelect(s2)) => s1 == s2,
        _ => false,
    }
}

impl Clone for DataFrame {
    fn clone(&self) -> (r: Self)
        ensures
            frame_equiv(r, *self),
    {
        let mut columns: Vec<Column> = Vec::new();
        let nc = self.columns.len();
        for i in 0..nc
            invariant
                nc == self.columns@.len(),
                columns@.len() == i,
                forall|j: int| 0 <= j < i ==> columns@[j] == self.columns@[j],
        {
            columns.push(self.columns[i].clone());
        }
        proof {
            assert(columns@ =~= self.columns@);
        }
        let mut rows: Vec<Row> = Vec::new();
        let nr = self.rows.len();
        for i in 0..nr
            invariant
                nr == self.rows@.len(),
                rows@.len() == i,
                forall|j: int| 0 <= j < i ==> (#[trigger] rows@[j]).values@ == self.rows@[j].values@,
        {
            rows.push(self.rows[i].clone());
        }
        DataFrame { columns, rows }
    }
}

impl Clone for QueryPlan {
    fn clone(&self) -> (r: Self)
        ensures
            plan_equiv(r, *self),
    {
        match self {
            QueryPlan::MetaOk(s) => QueryPlan::MetaOk(*s),
            QueryPlan::MetaTabular(s, f) => QueryPlan::MetaTabular(*s, f.clone()),
            QueryPlan::DataFusionSelect(s) => QueryPlan::DataFusionSelect(*s),
        }
    }
}

/// Did this authentication attempt succeed? It did exactly when the
/// provider answered at all and either expected no password or expected
/// the supplied one.
pub open spec fn auth_success(auth: Option<AuthenticateResponse>, supplied: Seq<char>) -> bool {
    match auth {
        Some(resp) => match resp.password {
            None => true,
            Some(p) => p@ == supplied,
        },
        None => false,
    }
}

pub open spec fn is_parameter_status(m: BackendMessage, k: Seq<char>, v: Seq<char>) -> bool {
    m matches BackendMessage::ParameterStatus(ks, vs) && ks@ == k && vs@ == v
}

/// One value rendered to its wire text: null is absent, strings go as
/// they are, integers in decimal, booleans as a single character (`t` for
/// true, `v` for false), floats and timestamps as the text the engine
/// produced.
pub open spec fn rendered_value(v: TableValue, o: Option<String>) -> bool {
    match v {
        TableValue::Null => o is None,
        TableValue::String(s) => o matches Some(t) && t@ == s@,
        TableValue::Int64(x) => o matches Some(t) && t@ == dec_str(x as int),
        TableValue::Boolean(b) => o matches Some(t) && t@ == (if b {
            "t"@
        } else {
            "v"@
        }),
        TableValue::Float64(s) => o matches Some(t) && t@ == s@,
        TableValue::Timestamp(s) => o matches Some(t) && t@ == s@,
    }
}

/// A row description announcing every column with the generic text type.
pub open spec fn is_row_description(m: BackendMessage, columns: Seq<Column>) -> bool {
    m matches BackendMessage::RowDescription(fs) && fs@.len() == columns.len() && (forall|j: int|
        0 <= j < columns.len() ==> (#[trigger] fs@[j]).name@ == columns[j].name@ && fs@[j].type_oid
            == TEXT_TYPE_OID)
}

pub open spec fn is_data_row(m: BackendMessage, row: Row) -> bool {
    m matches BackendMessage::DataRow(vals) && vals@.len() == row.values@.len() && (forall|j: int|
        0 <= j < row.values@.len() ==> rendered_value(row.values@[j], #[trigger] vals@[j]))
}

/// The framing owed for one finished query, before the ready notice: an
/// error becomes one non-fatal error response; a status-only result one
/// command-complete; a tabular result of k rows exactly one row
/// description, k data rows and one command-complete, in that order.
pub open spec fn query_result_framing(
    result: Result<QueryResponse, CubeError>,
    msgs: Seq<BackendMessage>,
) -> bool {
    match result {
        Result::Err(e) => msgs.len() == 1 && (msgs[0] matches BackendMessage::ErrorResponse(
            sev,
            code,
            m,
        ) && sev == ErrorSeverity::Error && code == ErrorCode::InternalError && m@ == e.message@),
        Result::Ok(QueryResponse::Completed(_)) => msgs.len() == 1 && msgs[0]
            == BackendMessage::CommandComplete(CommandCompleteTag::Select, 0),
        Result::Ok(QueryResponse::ResultSet(_, frame)) => {
            &&& msgs.len() == frame.rows@.len() + 2
            &&& is_row_description(msgs[0], frame.columns@)
            &&& forall|i: int|
                1 <= i < frame.rows@.len() as int + 1 ==> is_data_row(#[trigger] msgs[i], frame.rows@[i - 1])
            &&& msgs[frame.rows@.len() as int + 1] == BackendMessage::CommandComplete(
                CommandCompleteTag::Select,
                0,
            )
        },
    }
}

/// Renders one result value to its wire text.
pub fn render_value(value: &TableValue) -> (r: Option<String>)
    ensures
        rendered_value(*value, r),
{
    match value {
        TableValue::Null => None,
        TableValue::String(v) => Some(v.clone()),
        TableValue::Int64(v) => Some(i64_to_decimal(*v)),
        TableValue::Boolean(v) => Some(
            if *v {
                String::from_str("t")
            } else {
                String::from_str("v")
            },
        ),
        TableValue::Float64(v) => Some(v.clone()),
        TableValue::Timestamp(v) => Some(v.clone()),
    }
}

/// Turns one finished query into the backend messages it owes, without the
/// trailing ready notice; the simple-query path appends one, the extended
/// `Execute` path leaves it to `Sync`.
pub fn query_result_messages(result: Result<QueryResponse, CubeError>) -> (r: Vec<BackendMessage>)
    ensures
        query_result_framing(result, r@),
{
    let mut msgs: Vec<BackendMessage> = Vec::new();
    match result {
        Result::Err(e) => {
            msgs.push(
                BackendMessage::ErrorResponse(
                    ErrorSeverity::Error,
                    ErrorCode::InternalError,
                    e.message,
                ),
            );
        },
        Result::Ok(QueryResponse::Completed(_status)) => {
            msgs.push(BackendMessage::CommandComplete(CommandCompleteTag::Select, 0));
        },
        Result::Ok(QueryResponse::ResultSet(_status, frame)) => {
            let mut fields: Vec<RowDescriptionField> = Vec::new();
            let nc = frame.columns.len();
            for j in 0..nc
                invariant
                    nc == frame.columns@.len(),
                    fields@.len() == j,
                    forall|q: int|
                        0 <= q < j ==> (#[trigger] fields@[q]).name@ == frame.columns@[q].name@
                            && fields@[q].type_oid == TEXT_TYPE_OID,
            {
                fields.push(
                    RowDescriptionField {
                        name: frame.columns[j].name.clone(),
                        type_oid: TEXT_TYPE_OID,
                    },
                );
            }
            msgs.push(BackendMessage::RowDescription(fields));
            let nr = frame.rows.len();
            for i in 0..nr
                invariant
                    nr == frame.rows@.len(),
                    msgs@.len() == 1 + i,
                    is_row_description(msgs@[0], frame.columns@),
                    forall|q: int| 1 <= q < 1 + i ==> is_data_row(#[trigger] msgs@[q], frame.rows@[q - 1]),
            {
                let row = &frame.rows[i];
                let mut values: Vec<Option<String>> = Vec::new();
                let nv = row.values.len();
                for j in 0..nv
                    invariant
                        nv == row.values@.len(),
                        values@.len() == j,
                        forall|q: int|
                            0 <= q < j ==> rendered_value(row.values@[q], #[trigger] values@[q]),
                {
                    values.push(render_value(&row.values[j]));
                }
                msgs.push(BackendMessage::DataRow(values));
            }
            msgs.push(BackendMessage::CommandComplete(CommandCompleteTag::Select, 0));
        },
    }
    msgs
}

/// What the command loop should do with one frontend message.
pub enum CommandAction {
    RunQuery(Query),
    RunParse(Parse),
    RunBind(Bind),
    RunExecute(Execute),
    RunDescribe(Describe),
    RunSync,
    CloseCleanly,
    Refuse(ConnectionError),
}

/// What `Execute` decided: run this portal's plan to completion, or answer
/// directly when the portal does not exist.
pub enum ExecuteDisposition {
    Run(QueryPlan),
    Respond(Vec<BackendMessage>),
}

/// What `execute_query` decided about a compiled plan: the result is
/// already at hand, or the caller must run the select plan and collect.
pub enum QueryExecution {
    Done(QueryResponse),
    NeedsCollect(StatusFlags),
}

/// One client connection's protocol state.
pub struct PostgresShim {
    pub phase: ConnectionPhase,
    pub parameters: StrMap<String>,
    pub statements: StrMap<PreparedStatement>,
    pub portals: StrMap<Portal>,
    pub auth_context: Option<AuthContext>,
}

impl PostgresShim {
    pub fn new() -> (s: Self)
        ensures
            s.phase == ConnectionPhase::AwaitingStartup,
            s.auth_context is None,
            forall|k: Seq<char>| s.parameters.spec_get(k) is None,
            forall|k: Seq<char>| s.statements.spec_get(k) is None,
            forall|k: Seq<char>| s.portals.spec_get(k) is None,
    {
        PostgresShim {
            phase: ConnectionPhase::AwaitingStartup,
            parameters: StrMap::new(),
            statements: StrMap::new(),
            portals: StrMap::new(),
            auth_context: None,
        }
    }

    /// Handles one startup packet: an SSL negotiation request is answered
    /// and startup re-entered (once); a version other than 3.0 or a missing
    /// `user` parameter is a fatal denial; otherwise the parameters are
    /// captured, `database` defaults to `user`, and cleartext-password
    /// authentication is requested.
    pub fn process_startup_message(&mut self, startup_message: StartupMessage) -> (r: (
        StartupState,
        Vec<BackendMessage>,
    ))
        requires
            old(self).phase == ConnectionPhase::AwaitingStartup || old(self).phase
                == ConnectionPhase::SslNegotiated,
        ensures
            final(self).statements == old(self).statements,
            final(self).portals == old(self).portals,
            final(self).auth_context == old(self).auth_context,
            startup_message.protocol_version.major == SSL_REQUEST_PROTOCOL ==> {
                &&& r.0 == StartupState::SslRequested
                &&& r.1@.len() == 1
                &&& r.1@[0] == BackendMessage::SslResponse
                &&& final(self).parameters == old(self).parameters
                &&& final(self).phase == (if old(self).phase == ConnectionPhase::AwaitingStartup {
                    ConnectionPhase::SslNegotiated
                } else {
                    ConnectionPhase::Terminated
                })
            },
            startup_message.protocol_version.major != SSL_REQUEST_PROTOCOL && (
            startup_message.protocol_version.major != 3 || startup_message.protocol_version.minor
                != 0) ==> {
                &&& r.0 == StartupState::Denied
                &&& r.1@.len() == 1
                &&& (r.1@[0] matches BackendMessage::ErrorResponse(sev, code, m) && sev
                    == ErrorSeverity::Fatal && code == ErrorCode::FeatureNotSupported && m@
                    == "unsupported frontend protocol "@ + dec_str(
                    startup_message.protocol_version.major as int,
                ) + "."@ + dec_str(startup_message.protocol_version.minor as int)
                    + ": server supports 3.0 to 3.0"@)
                &&& final(self).parameters == old(self).parameters
                &&& final(self).phase == ConnectionPhase::Terminated
            },
            startup_message.protocol_version.major == 3 && startup_message.protocol_version.minor
                == 0 && startup_message.parameters.spec_get("user"@) is None ==> {
                &&& r.0 == StartupState::Denied
                &&& r.1@.len() == 1
                &&& (r.1@[0] matches BackendMessage::ErrorResponse(sev, code, m) && sev
                    == ErrorSeverity::Fatal && code == ErrorCode::InvalidAuthorizationSpecification
                    && m@ == "no PostgreSQL user name specified in startup packet"@)
                &&& final(self).parameters == startup_message.parameters
                &&& final(self).phase == ConnectionPhase::Terminated
            },
            startup_message.protocol_version.major == 3 && startup_message.protocol_version.minor
                == 0 && startup_message.parameters.spec_get("user"@) is Some ==> {
                &&& r.0 == StartupState::Success
                &&& r.1@.len() == 1
                &&& r.1@[0] == BackendMessage::Authentication(
                    AuthenticationRequest::CleartextPassword,
                )
                &&& final(self).parameters.spec_get("user"@) == startup_message.parameters.spec_get(
                    "user"@,
                )
                &&& final(self).parameters.spec_get("database"@) == (
                if startup_message.parameters.spec_get("database"@) is Some {
                    startup_message.parameters.spec_get("database"@)
                } else {
                    startup_message.parameters.spec_get("user"@)
                })
                &&& forall|k: Seq<char>|
                    k != "database"@ ==> final(self).parameters.spec_get(k)
                        == startup_message.parameters.spec_get(k)
                &&& final(self).phase == ConnectionPhase::AwaitingPassword
            },
    {
        let v = startup_message.protocol_version;
        if v.major == SSL_REQUEST_PROTOCOL {
            let mut msgs: Vec<BackendMessage> = Vec::new();
            msgs.push(BackendMessage::SslResponse);
            if self.phase == ConnectionPhase::AwaitingStartup {
                self.phase = ConnectionPhase::SslNegotiated;
            } else {
                self.phase = ConnectionPhase::Terminated;
            }
            return (StartupState::SslRequested, msgs);
        }
        if v.major != 3 || v.minor != 0 {
            let mut m = String::from_str("unsupported frontend protocol ");
            let major_text = i64_to_decimal(v.major as i64);
            m.append(major_text.as_str());
            m.append(".");
            let minor_text = i64_to_decimal(v.minor as i64);
            m.append(minor_text.as_str());
            m.append(": server supports 3.0 to 3.0");
            let mut msgs: Vec<BackendMessage> = Vec::new();
            msgs.push(
                BackendMessage::ErrorResponse(
                    ErrorSeverity::Fatal,
                    ErrorCode::FeatureNotSupported,
                    m,
                ),
            );
            self.phase = ConnectionPhase::Terminated;
            return (StartupState::Denied, msgs);
        }
        self.parameters = startup_message.parameters;
        let user_key = String::from_str("user");
        if !self.parameters.contains_key(&user_key) {
            let mut msgs: Vec<BackendMessage> = Vec::new();
            msgs.push(
                BackendMessage::ErrorResponse(
                    ErrorSeverity::Fatal,
                    ErrorCode::InvalidAuthorizationSpecification,
                    String::from_str("no PostgreSQL user name specified in startup packet"),
                ),
            );
            self.phase = ConnectionPhase::Terminated;
            return (StartupState::Denied, msgs);
        }
        let db_key = String::from_str("database");
        if !self.parameters.contains_key(&db_key) {
            let user_value = match self.parameters.get(&user_key) {
                Some(u) => u.clone(),
                None => unreached(),
            };
            self.parameters.insert(db_key, user_value);
            proof {
                reveal_strlit("user");
                reveal_strlit("database");
            }
        }
        let mut msgs: Vec<BackendMessage> = Vec::new();
        msgs.push(BackendMessage::Authentication(AuthenticationRequest::CleartextPassword));
        self.phase = ConnectionPhase::AwaitingPassword;
        (StartupState::Success, msgs)
    }

    /// After a successful startup exactly one password message is owed;
    /// any other frontend message closes the connection silently.
    pub fn expect_password_message(&mut self, message: FrontendMessage) -> (r: Option<
        PasswordMessage,
    >)
        requires
            old(self).phase == ConnectionPhase::AwaitingPassword,
        ensures
            message matches FrontendMessage::PasswordMessage(p) ==> r == Some(p) && *final(self)
                == *old(self),
            !(message matches FrontendMessage::PasswordMessage(_)) ==> {
                &&& r is None
                &&& final(self).phase == ConnectionPhase::Terminated
                &&& final(self).parameters == old(self).parameters
                &&& final(self).statements == old(self).statements
                &&& final(self).portals == old(self).portals
                &&& final(self).auth_context == old(self).auth_context
            },
    {
        match message {
            FrontendMessage::PasswordMessage(p) => Some(p),
            _ => {
                self.phase = ConnectionPhase::Terminated;
                None
            },
        }
    }

    /// Decides one authentication attempt from the provider's answer:
    /// success when no password was expected or the supplied one matches
    /// exactly; otherwise a fatal invalid-password denial.
    pub fn authenticate(
        &mut self,
        password_message: PasswordMessage,
        auth: Option<AuthenticateResponse>,
    ) -> (r: (bool, Vec<BackendMessage>))
        requires
            old(self).phase == ConnectionPhase::AwaitingPassword,
            old(self).parameters.spec_get("user"@) is Some,
        ensures
            r.0 == auth_success(auth, password_message.password@),
            final(self).parameters == old(self).parameters,
            final(self).statements == old(self).statements,
            final(self).portals == old(self).portals,
            auth_success(auth, password_message.password@) ==> {
                &&& r.1@.len() == 1
                &&& r.1@[0] == BackendMessage::Authentication(AuthenticationRequest::Success)
                &&& (auth matches Some(resp) && final(self).auth_context == Some(resp.context))
                &&& final(self).phase == ConnectionPhase::Ready
            },
            !auth_success(auth, password_message.password@) ==> {
                &&& r.1@.len() == 1
                &&& (r.1@[0] matches BackendMessage::ErrorResponse(sev, code, m) && sev
                    == ErrorSeverity::Fatal && code == ErrorCode::InvalidPassword && (old(
                    self,
                ).parameters.spec_get("user"@) matches Some(u) && m@
                    == "password authentication failed for user \""@ + u@ + "\""@))
                &&& final(self).auth_context == old(self).auth_context
                &&& final(self).phase == ConnectionPhase::Terminated
            },
    {
        let user_key = String::from_str("user");
        let user = match self.parameters.get(&user_key) {
            Some(u) => u.clone(),
            None => unreached(),
        };
        let success = match &auth {
            Some(resp) => match &resp.password {
                None => true,
                Some(p) => *p == password_message.password,
            },
            None => false,
        };
        if !success {
            let mut m = String::from_str("password authentication failed for user \"");
            m.append(user.as_str());
            m.append("\"");
            let mut msgs: Vec<BackendMessage> = Vec::new();
            msgs.push(
                BackendMessage::ErrorResponse(ErrorSeverity::Fatal, ErrorCode::InvalidPassword, m),
            );
            self.phase = ConnectionPhase::Terminated;
            return (false, msgs);
        }
        self.auth_context = match auth {
            Some(resp) => Some(resp.context),
            None => unreached(),
        };
        self.phase = ConnectionPhase::Ready;
        let mut msgs: Vec<BackendMessage> = Vec::new();
        msgs.push(BackendMessage::Authentication(AuthenticationRequest::Success));
        (true, msgs)
    }

    /// The fixed announcements owed once authentication succeeded, ending
    /// with the first ready-for-query notice.
    pub fn ready(&self) -> (r: Vec<BackendMessage>)
        ensures
            r@.len() == 5,
            is_parameter_status(r@[0], "server_version"@, "14.2 (Cube SQL)"@),
            is_parameter_status(r@[1], "server_encoding"@, "UTF8"@),
            is_parameter_status(r@[2], "client_encoding"@, "UTF8"@),
            is_parameter_status(r@[3], "DateStyle"@, "ISO"@),
            r@[4] == BackendMessage::ReadyForQuery(TransactionStatus::Idle),
    {
        let mut msgs: Vec<BackendMessage> = Vec::new();
        msgs.push(
            BackendMessage::ParameterStatus(
                String::from_str("server_version"),
                String::from_str("14.2 (Cube SQL)"),
            ),
        );
        msgs.push(
            BackendMessage::ParameterStatus(
                String::from_str("server_encoding"),
                String::from_str("UTF8"),
            ),
        );
        msgs.push(
            BackendMessage::ParameterStatus(
                String::from_str("client_encoding"),
                String::from_str("UTF8"),
            ),
        );
        msgs.push(
            BackendMessage::ParameterStatus(String::from_str("DateStyle"), String::from_str("ISO")),
        );
        msgs.push(BackendMessage::ReadyForQuery(TransactionStatus::Idle));
        msgs
    }

    /// `Sync` is answered with a ready-for-query notice alone.
    pub fn sync(&self) -> (r: Vec<BackendMessage>)
        ensures
            r@.len() == 1,
            r@[0] == BackendMessage::ReadyForQuery(TransactionStatus::Idle),
    {
        let mut msgs: Vec<BackendMessage> = Vec::new();
        msgs.push(BackendMessage::ReadyForQuery(TransactionStatus::Idle));
        msgs
    }

    /// `Describe` is acknowledged without a response.
    pub fn describe(&self, _describe: &Describe) -> (r: Vec<BackendMessage>)
        ensures
            r@.len() == 0,
    {
        Vec::new()
    }

    /// Routes one command-loop message: queries, the extended-protocol
    /// steps and `Sync` go to their handlers, `Terminate` closes cleanly,
    /// and anything else is a fatal unsupported-operation error.
    pub fn dispatch_message(&mut self, message: FrontendMessage) -> (r: CommandAction)
        requires
            old(self).phase == ConnectionPhase::Ready,
        ensures
            final(self).parameters == old(self).parameters,
            final(self).statements == old(self).statements,
            final(self).portals == old(self).portals,
            final(self).auth_context == old(self).auth_context,
            message matches FrontendMessage::Query(q) ==> r == CommandAction::RunQuery(q) && *final(self) == *old(self),
            message matches FrontendMessage::Parse(p) ==> r == CommandAction::RunParse(p) && *final(self) == *old(self),
            message matches FrontendMessage::Bind(b) ==> r == CommandAction::RunBind(b) && *final(self) == *old(self),
            message matches FrontendMessage::Execute(e) ==> r == CommandAction::RunExecute(e)
                && *final(self) == *old(self),
            message matches FrontendMessage::Describe(d) ==> r == CommandAction::RunDescribe(d)
                && *final(self) == *old(self),
            message matches FrontendMessage::Sync ==> r == CommandAction::RunSync && *final(self)
                == *old(self),
            message matches FrontendMessage::Terminate ==> r == CommandAction::CloseCleanly
                && final(self).phase == ConnectionPhase::Terminated,
            (message matches FrontendMessage::PasswordMessage(_) || message
                matches FrontendMessage::Unsupported(_)) ==> {
                &&& (r matches CommandAction::Refuse(e) && e.kind == ErrorKind::Unsupported
                    && e.message@ == "Unsupported operation"@)
                &&& final(self).phase == ConnectionPhase::Terminated
            },
    {
        match message {
            FrontendMessage::Query(q) => CommandAction::RunQuery(q),
            FrontendMessage::Parse(p) => CommandAction::RunParse(p),
            FrontendMessage::Bind(b) => CommandAction::RunBind(b),
            FrontendMessage::Execute(e) => CommandAction::RunExecute(e),
            FrontendMessage::Describe(d) => CommandAction::RunDescribe(d),
            FrontendMessage::Sync => CommandAction::RunSync,
            FrontendMessage::Terminate => {
                self.phase = ConnectionPhase::Terminated;
                CommandAction::CloseCleanly
            },
            _ => {
                self.phase = ConnectionPhase::Terminated;
                CommandAction::Refuse(
                    ConnectionError {
                        kind: ErrorKind::Unsupported,
                        message: String::from_str("Unsupported operation"),
                    },
                )
            },
        }
    }

    /// Stores the parsed statement under its name, overwriting any prior
    /// statement of that name. A parse failure is unrecoverable for the
    /// connection and propagates as a connection error.
    pub fn parse(&mut self, parse: Parse, parsed: Result<Statement, CubeError>) -> (r: Result<
        Vec<BackendMessage>,
        ConnectionError,
    >)
        requires
            old(self).phase == ConnectionPhase::Ready,
        ensures
            final(self).parameters == old(self).parameters,
            final(self).portals == old(self).portals,
            final(self).auth_context == old(self).auth_context,
            parsed matches Ok(st) ==> {
                &&& (r matches Ok(msgs) && msgs@.len() == 1 && msgs@[0]
                    == BackendMessage::ParseComplete)
                &&& final(self).statements.spec_get(parse.name@) == Some(
                    (PreparedStatement { query: st }),
                )
                &&& forall|k: Seq<char>|
                    k != parse.name@ ==> final(self).statements.spec_get(k) == old(
                        self,
                    ).statements.spec_get(k)
                &&& final(self).phase == ConnectionPhase::Ready
            },
            parsed matches Err(e) ==> {
                &&& (r matches Err(ce) && ce.kind == ErrorKind::Other && ce.message@ == e.message@)
                &&& final(self).statements == old(self).statements
                &&& final(self).phase == ConnectionPhase::Terminated
            },
    {
        match parsed {
            Ok(st) => {
                self.statements.insert(parse.name, PreparedStatement { query: st });
                let mut msgs: Vec<BackendMessage> = Vec::new();
                msgs.push(BackendMessage::ParseComplete);
                Ok(msgs)
            },
            Err(e) => {
                self.phase = ConnectionPhase::Terminated;
                Err(ConnectionError { kind: ErrorKind::Other, message: e.message })
            },
        }
    }

    /// Looks the named prepared statement up for `Bind`. Binding uses an
    /// empty parameter list, so the stored statement comes back unchanged
    /// (parameter substitution is a known limitation); an unknown name is
    /// an error.
    pub fn bind_source(&self, bind: &Bind) -> (r: Result<PreparedStatement, ConnectionError>)
        ensures
            match self.statements.spec_get(bind.statement@) {
                Some(st) => r matches Ok(p) && p == st,
                None => r matches Err(e) && e.kind == ErrorKind::Other && e.message@
                    == "Unknown statement"@,
            },
    {
        match self.statements.get(&bind.statement) {
            Some(st) => Ok(st.clone()),
            None => Err(
                ConnectionError {
                    kind: ErrorKind::Other,
                    message: String::from_str("Unknown statement"),
                },
            ),
        }
    }

    /// Stores the compiled plan as a named portal, overwriting any prior
    /// portal of that name, and acknowledges the bind.
    pub fn bind(&mut self, bind: Bind, plan: QueryPlan) -> (r: Vec<BackendMessage>)
        requires
            old(self).phase == ConnectionPhase::Ready,
        ensures
            final(self).portals.spec_get(bind.portal@) == Some((Portal { plan })),
            forall|k: Seq<char>|
                k != bind.portal@ ==> final(self).portals.spec_get(k) == old(self).portals.spec_get(
                    k,
                ),
            final(self).parameters == old(self).parameters,
            final(self).statements == old(self).statements,
            final(self).auth_context == old(self).auth_context,
            final(self).phase == ConnectionPhase::Ready,
            r@.len() == 1,
            r@[0] == BackendMessage::BindComplete,
    {
        self.portals.insert(bind.portal, Portal { plan });
        let mut msgs: Vec<BackendMessage> = Vec::new();
        msgs.push(BackendMessage::BindComplete);
        msgs
    }

    /// Decides `Execute`: a present portal's plan must be run to
    /// completion and its results streamed with the same framing as a
    /// simple query; an absent portal is answered with a bare
    /// ready-for-query notice.
    pub fn execute(&self, execute: &Execute) -> (r: ExecuteDisposition)
        ensures
            match self.portals.spec_get(execute.portal@) {
                Some(p) => r matches ExecuteDisposition::Run(plan) && plan_equiv(plan, p.plan),
                None => r matches ExecuteDisposition::Respond(msgs) && msgs@.len() == 1 && msgs@[0]
                    == BackendMessage::ReadyForQuery(TransactionStatus::Idle),
            },
    {
        match self.portals.get(&execute.portal) {
            Some(p) => ExecuteDisposition::Run(p.plan.clone()),
            None => {
                let mut msgs: Vec<BackendMessage> = Vec::new();
                msgs.push(BackendMessage::ReadyForQuery(TransactionStatus::Idle));
                ExecuteDisposition::Respond(msgs)
            },
        }
    }

    /// Classifies one compiled plan: meta results are complete as they
    /// stand; a select plan must be run by the engine and its batches
    /// collected into a tabular result.
    pub fn execute_query(&self, plan: QueryPlan) -> (r: QueryExecution)
        ensures
            plan matches QueryPlan::MetaOk(s) ==> r == QueryExecution::Done(
                QueryResponse::Completed(s),
            ),
            plan matches QueryPlan::MetaTabular(s, f) ==> r == QueryExecution::Done(
                QueryResponse::ResultSet(s, f),
            ),
            plan matches QueryPlan::DataFusionSelect(s) ==> r == QueryExecution::NeedsCollect(s),
    {
        match plan {
            QueryPlan::MetaOk(s) => QueryExecution::Done(QueryResponse::Completed(s)),
            QueryPlan::MetaTabular(s, f) => QueryExecution::Done(QueryResponse::ResultSet(s, f)),
            QueryPlan::DataFusionSelect(s) => QueryExecution::NeedsCollect(s),
        }
    }

    /// The simple-query response: the result framing followed by exactly
    /// one ready-for-query notice, whatever the outcome.
    pub fn process_query(&self, result: Result<QueryResponse, CubeError>) -> (r: Vec<
        BackendMessage,
    >)
        ensures
            r@.len() >= 1,
            query_result_framing(result, r@.take(r@.len() - 1)),
            r@[r@.len() - 1] == BackendMessage::ReadyForQuery(TransactionStatus::Idle),
    {
        let mut msgs = query_result_messages(result);
        let ghost prefix = msgs@;
        msgs.push(BackendMessage::ReadyForQuery(TransactionStatus::Idle));
        proof {
            assert(msgs@.take(msgs@.len() - 1) =~= prefix);
        }
        msgs
    }

    /// The authentication context, owed once the session is authenticated;
    /// asking earlier is an internal error.
    pub fn auth_context(&self) -> (r: Result<AuthContext, CubeError>)
        ensures
            match self.auth_context {
                Some(ctx) => r matches Ok(c) && c == ctx,
                None => r matches Err(e) && e.message@ == "must be auth"@,
            },
    {
        match &self.auth_context {
            Some(ctx) => Ok(ctx.clone()),
            None => Err(CubeError { message: String::from_str("must be auth") }),
        }
    }

    /// How the connection's overall outcome is reported: an unexpected
    /// end-of-file before authentication is a normal disconnect; after
    /// authentication, or for any other failure, the error stands.
    pub fn close_outcome(&self, result: Result<(), ConnectionError>) -> (r: Result<
        (),
        ConnectionError,
    >)
        ensures
            result is Ok ==> r is Ok,
            result matches Err(e) ==> (if e.kind == ErrorKind::UnexpectedEof
                && self.auth_context is None {
                r is Ok
            } else {
                r matches Err(e2) && e2 == e
            }),
    {
        match result {
            Ok(u) => Ok(u),
            Err(e) => {
                if e.kind == ErrorKind::UnexpectedEof && self.auth_context.is_none() {
                    Ok(())
                } else {
                    Err(e)
                }
            },
        }
    }
}

} // verus!
