//! Bootstrap of the daemon's services.  Each service validates the
//! configuration and produces the start plan that the daemon then
//! executes; all network and database work happens outside the core.
//! The service set is fixed at compile time.

use crate::config::{DBCredentials, DBCredentialsModel, DonetConfig, SQL};
use vstd::prelude::*;
use vstd::string::StrSliceExecFns;

verus! {

/// Whether `c` is a decimal digit.
pub open spec fn is_dec_digit(c: char) -> bool {
    48 <= c as u32 <= 57
}

/// Whether `s` consists of decimal digits only.
pub open spec fn all_digits(s: Seq<char>) -> bool {
    forall|k: int| 0 <= k < s.len() ==> #[trigger] is_dec_digit(s[k])
}

/// The value of a decimal digit string.
pub open spec fn digits_val(s: Seq<char>) -> int
    decreases s.len(),
{
    if s.len() == 0 {
        0
    } else {
        digits_val(s.drop_last()) * 10 + (s.last() as u32 - 48)
    }
}

/// What `str::parse::<i16>` accepts and returns: an optional sign, one
/// or more decimal digits, and a value within the type's range.
pub open spec fn spec_parse_i16(s: Seq<char>) -> Option<i16> {
    let has_sign = s.len() > 0 && (s[0] == '+' || s[0] == '-');
    let neg = s.len() > 0 && s[0] == '-';
    let ds = if has_sign {
        s.subrange(1, s.len() as int)
    } else {
        s
    };
    if ds.len() == 0 || !all_digits(ds) {
        None
    } else {
        let v = if neg {
            -digits_val(ds)
        } else {
            digits_val(ds)
        };
        if -0x8000 <= v && v <= 0x7FFF {
            Some(v as i16)
        } else {
            None
        }
    }
}

/// The index of the last `':'` in `s`, `-1` when there is none.
pub open spec fn last_colon(s: Seq<char>) -> int
    decreases s.len(),
{
    if s.len() == 0 {
        -1
    } else if s.last() == ':' {
        s.len() - 1
    } else {
        last_colon(s.drop_last())
    }
}

proof fn lemma_last_colon_skip(s: Seq<char>, j: int)
    requires
        0 <= j <= s.len(),
        forall|k: int| j <= k < s.len() ==> s[k] != ':',
    ensures
        last_colon(s) == last_colon(s.subrange(0, j)),
    decreases s.len() - j,
{
    if j == s.len() {
        assert(s.subrange(0, j) =~= s);
    } else {
        assert(s.last() != ':');
        assert(s.drop_last() =~= s.subrange(0, s.len() - 1));
        lemma_last_colon_skip(s.drop_last(), j);
        assert(s.drop_last().subrange(0, j) =~= s.subrange(0, j));
    }
}

/// Find the last `':'` of `s`, if any.
pub fn find_last_colon(s: &str) -> (r: Option<usize>)
    ensures
        match r {
            Some(j) => j < s@.len() && s@[j as int] == ':' && last_colon(s@) == j,
            None => last_colon(s@) == -1,
        },
{
    let n = s.unicode_len();
    let mut j = n;
    while j > 0
        invariant
            j <= n,
            n == s@.len(),
            forall|k: int| j <= k < n ==> s@[k] != ':',
        decreases j,
    {
        let c = s.get_char(j - 1);
        if c == ':' {
            proof {
                lemma_last_colon_skip(s@, j as int);
                assert(s@.subrange(0, j as int).last() == s@[j - 1]);
            }
            return Some(j - 1);
        }
        j -= 1;
    }
    proof {
        lemma_last_colon_skip(s@, 0);
    }
    None
}

/// Parse a decimal 16-bit signed integer, exactly as the standard
/// library's integer parsing does: an optional `+` or `-`, then one or
/// more digits, rejecting anything else and any value out of range.
pub fn parse_i16(s: &str) -> (r: Option<i16>)
    ensures
        r == spec_parse_i16(s@),
{
    let n = s.unicode_len();
    if n == 0 {
        return None;
    }
    let first = s.get_char(0);
    let neg = first == '-';
    let has_sign = neg || first == '+';
    let start: usize = if has_sign {
        1
    } else {
        0
    };
    let ghost ds = if has_sign {
        s@.subrange(1, n as int)
    } else {
        s@
    };
    if start == n {
        return None;
    }
    let mut mag: i32 = 0;
    let mut overflow = false;
    let mut i = start;
    while i < n
        invariant
            n == s@.len(),
            start <= i <= n,
            start <= 1,
            start < n,
            has_sign ==> start == 1,
            !has_sign ==> start == 0,
            has_sign == (s@.len() > 0 && (s@[0] == '+' || s@[0] == '-')),
            neg == (s@.len() > 0 && s@[0] == '-'),
            ds == if has_sign {
                s@.subrange(1, n as int)
            } else {
                s@
            },
            ds.len() == n - start,
            forall|k: int| 0 <= k < i - start ==> #[trigger] is_dec_digit(ds[k]),
            !overflow ==> mag == digits_val(ds.subrange(0, i - start)),
            !overflow ==> 0 <= mag <= 0x8000,
            overflow ==> digits_val(ds.subrange(0, i - start)) > 0x8000,
        decreases n - i,
    {
        let c = s.get_char(i);
        let u = c as u32;
        assert(ds[i - start] == s@[i as int]);
        if u < 48 || u > 57 {
            assert(0 <= i - start < ds.len());
            assert(!is_dec_digit(ds[i - start]));
            assert(!all_digits(ds));
            return None;
        }
        let ghost pre = ds.subrange(0, i - start);
        let d = (u - 48) as i32;
        if !overflow {
            let m2 = mag * 10 + d;
            if m2 > 0x8000 {
                overflow = true;
            } else {
                mag = m2;
            }
        }
        i += 1;
        proof {
            let cur = ds.subrange(0, i - start);
            assert(cur =~= pre.push(ds[i - 1 - start]));
            assert(cur.drop_last() =~= pre);
            assert(digits_val(cur) == digits_val(pre) * 10 + (ds[i - 1 - start] as u32 - 48));
        }
    }
    assert(ds.subrange(0, ds.len() as int) =~= ds);
    assert(all_digits(ds));
    if overflow {
        return None;
    }
    if neg {
        let v = -mag;
        Some(v as i16)
    } else {
        if mag > 0x7FFF {
            return None;
        }
        Some(mag as i16)
    }
}

/// The host and port segments that the Database Server reads from a
/// `host:port` address: the text after the last `':'` is the port, the
/// segment between the previous `':'` (or the start) and the last one
/// is the host.  `None` when there is no `':'` at all.
pub open spec fn spec_host_port(s: Seq<char>) -> Option<(Seq<char>, Seq<char>)> {
    let j = last_colon(s);
    if j < 0 {
        None
    } else {
        let prefix = s.subrange(0, j);
        let i = last_colon(prefix);
        Some((prefix.subrange(i + 1, prefix.len() as int), s.subrange(j + 1, s.len() as int)))
    }
}

proof fn lemma_last_colon_bounds(s: Seq<char>)
    ensures
        -1 <= last_colon(s) < s.len(),
    decreases s.len(),
{
    if s.len() > 0 && s.last() != ':' {
        lemma_last_colon_bounds(s.drop_last());
    }
}

/// The validated database credentials read from an SQL configuration
/// section, `None` when the address has no `':'` or its port does not
/// parse as a 16-bit integer.
pub open spec fn spec_db_credentials(sql: SQL) -> Option<DBCredentialsModel> {
    match spec_host_port(sql.host@) {
        None => None,
        Some(hp) => match spec_parse_i16(hp.1) {
            None => None,
            Some(port) => Some(
                DBCredentialsModel {
                    host: hp.0,
                    port,
                    database: sql.database@,
                    user: sql.user@,
                    password: sql.pass@,
                },
            ),
        },
    }
}

/// Split the configured `host:port` address and parse the port.
pub fn build_db_credentials(sql: &SQL) -> (r: Option<DBCredentials>)
    ensures
        match r {
            Some(c) => spec_db_credentials(*sql) == Some(c@),
            None => spec_db_credentials(*sql) is None,
        },
{
    let s = sql.host.as_str();
    let n = s.unicode_len();
    match find_last_colon(s) {
        None => None,
        Some(j) => {
            let port_str = s.substring_char(j + 1, n);
            let prefix = s.substring_char(0, j);
            proof {
                lemma_last_colon_bounds(prefix@);
            }
            let hstart: usize = match find_last_colon(prefix) {
                Some(i) => i + 1,
                None => 0,
            };
            let host_str = prefix.substring_char(hstart, j);
            match parse_i16(port_str) {
                None => None,
                Some(port) => {
                    let c = DBCredentials {
                        host: host_str.to_owned(),
                        port,
                        database: sql.database.as_str().to_owned(),
                        user: sql.user.as_str().to_owned(),
                        password: sql.pass.as_str().to_owned(),
                    };
                    Some(c)
                },
            }
        },
    }
}

/// Why a service refused to produce a start plan.
#[derive(Clone, Copy, PartialEq, Eq, Structural, Debug)]
pub enum ServiceError {
    /// The Database Server section or its SQL backend block is missing.
    MissingDatabaseCredentials,
    /// The configured SQL address has no `host:port` shape.
    MalformedDatabaseHost,
}

/// What the daemon must do to boot one service: the validated
/// parameters each service start needs.
#[derive(Debug)]
pub enum StartPlan {
    ClientAgent,
    MessageDirector { bind: String, upstream: Option<String> },
    StateServer,
    DatabaseServer { credentials: DBCredentials },
    Dbss,
    EventLogger,
}

/// Mathematical model of `StartPlan`.
pub enum StartPlanModel {
    ClientAgent,
    MessageDirector { bind: Seq<char>, upstream: Option<Seq<char>> },
    StateServer,
    DatabaseServer { credentials: DBCredentialsModel },
    Dbss,
    EventLogger,
}

impl View for StartPlan {
    type V = StartPlanModel;

    open spec fn view(&self) -> StartPlanModel {
        match self {
            StartPlan::ClientAgent => StartPlanModel::ClientAgent,
            StartPlan::MessageDirector { bind, upstream } => StartPlanModel::MessageDirector {
                bind: bind@,
                upstream: match upstream {
                    Some(u) => Some(u@),
                    None => None,
                },
            },
            StartPlan::StateServer => StartPlanModel::StateServer,
            StartPlan::DatabaseServer { credentials } => StartPlanModel::DatabaseServer {
                credentials: credentials@,
            },
            StartPlan::Dbss => StartPlanModel::Dbss,
            StartPlan::EventLogger => StartPlanModel::EventLogger,
        }
    }
}

/// Whether the produced plan (or error) is the modelled one.
pub open spec fn plan_result_matches(
    r: Result<StartPlan, ServiceError>,
    m: Result<StartPlanModel, ServiceError>,
) -> bool {
    match r {
        Ok(p) => m matches Ok(pm) && p@ == pm,
        Err(e) => m matches Err(f) && e == f,
    }
}

/// Bootstrap handle of the Client Agent service.
pub struct ClientAgentService;

/// Bootstrap handle of the Message Director service.
pub struct MessageDirectorService;

/// Bootstrap handle of the State Server service.
pub struct StateServerService;

/// Bootstrap handle of the Database Server service.
pub struct DatabaseServerService;

/// Bootstrap handle of the Database State Server service.
pub struct DBSSService;

/// Bootstrap handle of the Event Logger service.
pub struct EventLoggerService;

/// Common bootstrap capability of every service: validate the
/// configuration and decide how to start.
pub trait DonetService: Sized {
    /// The bootstrap decision this service makes on a configuration.
    spec fn start_model(&self, conf: DonetConfig) -> Result<StartPlanModel, ServiceError>;

    /// Validate `conf` and produce the plan the daemon executes.
    fn start(&self, conf: &DonetConfig) -> (r: Result<StartPlan, ServiceError>)
        ensures
            plan_result_matches(r, self.start_model(*conf)),
    ;

    /// A fresh handle for this service.
    fn create(&self) -> (r: Self)
        ensures
            r == *self,
    ;
}

impl DonetService for ClientAgentService {
    open spec fn start_model(&self, conf: DonetConfig) -> Result<StartPlanModel, ServiceError> {
        Ok(StartPlanModel::ClientAgent)
    }

    fn start(&self, conf: &DonetConfig) -> (r: Result<StartPlan, ServiceError>) {
        Ok(StartPlan::ClientAgent)
    }

    fn create(&self) -> (r: Self) {
        ClientAgentService
    }
}

impl DonetService for MessageDirectorService {
    open spec fn start_model(&self, conf: DonetConfig) -> Result<StartPlanModel, ServiceError> {
        Ok(
            StartPlanModel::MessageDirector {
                bind: conf.message_director.bind@,
                upstream: match conf.message_director.upstream {
                    Some(u) => Some(u@),
                    None => None,
                },
            },
        )
    }

    fn start(&self, conf: &DonetConfig) -> (r: Result<StartPlan, ServiceError>) {
        let bind = conf.message_director.bind.as_str().to_owned();
        let upstream = match &conf.message_director.upstream {
            Some(u) => Some(u.as_str().to_owned()),
            None => None,
        };
        Ok(StartPlan::MessageDirector { bind, upstream })
    }

    fn create(&self) -> (r: Self) {
        MessageDirectorService
    }
}

impl DonetService for StateServerService {
    open spec fn start_model(&self, conf: DonetConfig) -> Result<StartPlanModel, ServiceError> {
        Ok(StartPlanModel::StateServer)
    }

    fn start(&self, conf: &DonetConfig) -> (r: Result<StartPlan, ServiceError>) {
        Ok(StartPlan::StateServer)
    }

    fn create(&self) -> (r: Self) {
        StateServerService
    }
}

impl DonetService for DatabaseServerService {
    open spec fn start_model(&self, conf: DonetConfig) -> Result<StartPlanModel, ServiceError> {
        match conf.services.database_server {
            None => Err(ServiceError::MissingDatabaseCredentials),
            Some(db) => match db.sql {
                None => Err(ServiceError::MissingDatabaseCredentials),
                Some(sql) => match spec_db_credentials(sql) {
                    None => Err(ServiceError::MalformedDatabaseHost),
                    Some(credentials) => Ok(StartPlanModel::DatabaseServer { credentials }),
                },
            },
        }
    }

    fn start(&self, conf: &DonetConfig) -> (r: Result<StartPlan, ServiceError>) {
        match &conf.services.database_server {
            None => Err(ServiceError::MissingDatabaseCredentials),
            Some(db) => match &db.sql {
                None => Err(ServiceError::MissingDatabaseCredentials),
                Some(sql) => match build_db_credentials(sql) {
                    None => Err(ServiceError::MalformedDatabaseHost),
                    Some(credentials) => Ok(StartPlan::DatabaseServer { credentials }),
                },
            },
        }
    }

    fn create(&self) -> (r: Self) {
        DatabaseServerService
    }
}

impl DonetService for DBSSService {
    open spec fn start_model(&self, conf: DonetConfig) -> Result<StartPlanModel, ServiceError> {
        Ok(StartPlanModel::Dbss)
    }

    fn start(&self, conf: &DonetConfig) -> (r: Result<StartPlan, ServiceError>) {
        Ok(StartPlan::Dbss)
    }

    fn create(&self) -> (r: Self) {
        DBSSService
    }
}

impl DonetService for EventLoggerService {
    open spec fn start_model(&self, conf: DonetConfig) -> Result<StartPlanModel, ServiceError> {
        Ok(StartPlanModel::EventLogger)
    }

    fn start(&self, conf: &DonetConfig) -> (r: Result<StartPlan, ServiceError>) {
        Ok(StartPlan::EventLogger)
    }

    fn create(&self) -> (r: Self) {
        EventLoggerService
    }
}

} // verus!
