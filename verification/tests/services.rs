use donet::config::{DonetConfig, MessageDirectorConfig, Services, DBServer, SQL};
use donet::dcparameter::{DCAtomicField, DCParameter, DCTypeDefinition};
use donet::service_factory::{
    build_db_credentials, find_last_colon, parse_i16, ClientAgentService, DBSSService,
    DatabaseServerService, DonetService, EventLoggerService, MessageDirectorService, ServiceError,
    StartPlan, StateServerService,
};

fn base_config() -> DonetConfig {
    DonetConfig {
        message_director: MessageDirectorConfig {
            bind: String::from("127.0.0.1:7199"),
            upstream: None,
        },
        services: Services { database_server: None },
    }
}

fn sql(host: &str) -> SQL {
    SQL {
        host: String::from(host),
        database: String::from("donet"),
        user: String::from("gamer"),
        pass: String::from("hunter2"),
    }
}

#[test]
fn parse_i16_accepts_plain_and_signed_numbers() {
    assert_eq!(parse_i16("0"), Some(0));
    assert_eq!(parse_i16("123"), Some(123));
    assert_eq!(parse_i16("+7"), Some(7));
    assert_eq!(parse_i16("-42"), Some(-42));
    assert_eq!(parse_i16("32767"), Some(32767));
    assert_eq!(parse_i16("-32768"), Some(-32768));
    assert_eq!(parse_i16("007"), Some(7));
}

#[test]
fn parse_i16_rejects_malformed_and_out_of_range() {
    assert_eq!(parse_i16(""), None);
    assert_eq!(parse_i16("-"), None);
    assert_eq!(parse_i16("+"), None);
    assert_eq!(parse_i16("12a"), None);
    assert_eq!(parse_i16(" 12"), None);
    assert_eq!(parse_i16("32768"), None);
    assert_eq!(parse_i16("-32769"), None);
    assert_eq!(parse_i16("99999999999999999999"), None);
}

#[test]
fn find_last_colon_finds_the_rightmost_one() {
    assert_eq!(find_last_colon("a:b:c"), Some(3));
    assert_eq!(find_last_colon("localhost:3306"), Some(9));
    assert_eq!(find_last_colon(":"), Some(0));
    assert_eq!(find_last_colon("nocolon"), None);
    assert_eq!(find_last_colon(""), None);
}

#[test]
fn db_credentials_split_host_and_port() {
    let c = build_db_credentials(&sql("localhost:3306")).unwrap();
    assert_eq!(c.host, "localhost");
    assert_eq!(c.port, 3306);
    assert_eq!(c.database, "donet");
    assert_eq!(c.user, "gamer");
    assert_eq!(c.password, "hunter2");
}

#[test]
fn db_credentials_take_segment_before_last_colon_as_host() {
    let c = build_db_credentials(&sql("a:b:3306")).unwrap();
    assert_eq!(c.host, "b");
    assert_eq!(c.port, 3306);
}

#[test]
fn db_credentials_reject_bad_addresses() {
    assert!(build_db_credentials(&sql("localhost")).is_none());
    assert!(build_db_credentials(&sql("localhost:notaport")).is_none());
    assert!(build_db_credentials(&sql("localhost:70000")).is_none());
}

#[test]
fn message_director_service_plans_bind_and_upstream() {
    let mut conf = base_config();
    conf.message_director.upstream = Some(String::from("parent:7199"));
    let plan = MessageDirectorService.start(&conf).unwrap();
    match plan {
        StartPlan::MessageDirector { bind, upstream } => {
            assert_eq!(bind, "127.0.0.1:7199");
            assert_eq!(upstream.as_deref(), Some("parent:7199"));
        }
        _ => panic!("wrong plan"),
    }
}

#[test]
fn database_service_without_config_reports_missing_credentials() {
    let conf = base_config();
    assert_eq!(
        DatabaseServerService.start(&conf).unwrap_err(),
        ServiceError::MissingDatabaseCredentials
    );
    let mut conf = base_config();
    conf.services.database_server = Some(DBServer { sql: None });
    assert_eq!(
        DatabaseServerService.start(&conf).unwrap_err(),
        ServiceError::MissingDatabaseCredentials
    );
}

#[test]
fn database_service_with_bad_host_reports_malformed_host() {
    let mut conf = base_config();
    conf.services.database_server = Some(DBServer { sql: Some(sql("nocolon")) });
    assert_eq!(
        DatabaseServerService.start(&conf).unwrap_err(),
        ServiceError::MalformedDatabaseHost
    );
}

#[test]
fn database_service_plans_validated_credentials() {
    let mut conf = base_config();
    conf.services.database_server = Some(DBServer { sql: Some(sql("db.example:5432")) });
    match DatabaseServerService.start(&conf).unwrap() {
        StartPlan::DatabaseServer { credentials } => {
            assert_eq!(credentials.host, "db.example");
            assert_eq!(credentials.port, 5432);
        }
        _ => panic!("wrong plan"),
    }
}

#[test]
fn stub_services_plan_trivially() {
    let conf = base_config();
    assert!(matches!(ClientAgentService.start(&conf).unwrap(), StartPlan::ClientAgent));
    assert!(matches!(StateServerService.start(&conf).unwrap(), StartPlan::StateServer));
    assert!(matches!(DBSSService.start(&conf).unwrap(), StartPlan::Dbss));
    assert!(matches!(EventLoggerService.start(&conf).unwrap(), StartPlan::EventLogger));
}

#[test]
fn create_hands_out_a_fresh_handle() {
    let _ = ClientAgentService.create();
    let _ = MessageDirectorService.create();
    let _ = StateServerService.create();
    let _ = DatabaseServerService.create();
    let _ = DBSSService.create();
    let _ = EventLoggerService.create();
}

#[test]
fn dc_parameter_defaults_and_setters() {
    let field = DCAtomicField { field_id: 9 };
    let mut p = DCParameter::new(field, DCTypeDefinition { type_id: 1 });
    assert_eq!(p.get_atomic_field(), field);
    assert!(!p.has_default_value());
    assert!(p.get_default_value().is_empty());
    p.set_type(DCTypeDefinition { type_id: 2 });
    assert_eq!(p.base_type, DCTypeDefinition { type_id: 2 });
    p.set_identifier("avatar_name");
    assert_eq!(p.identifier.as_deref(), Some("avatar_name"));
    p.set_default_value(vec![1, 2, 3]);
    assert!(p.has_default_value());
    assert_eq!(p.get_default_value(), vec![1, 2, 3]);
}
