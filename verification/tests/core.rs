use ruda::cli::{runner_config, service_args, Config as CliConfig, Login, SERVICE_LABEL};
use ruda::config::{secret_file_name, Config, Runner, CONFIG_FILE};
use ruda::dash::config::{Config as DashConfig, Github};
use ruda::namegen::NameGenerator;
use ruda::runner::msg::Message;
use ruda::runner::{self, handle_msg, introduction, status_response};
use ruda::text::{decimal_text, parse_decimal_u64, signed_decimal_text, split_text};
use ruda::dash::data::machine::{Kind, Status};
use ruda::dash::startup::{github_app_id, local_runner};

fn cli_config() -> CliConfig {
    CliConfig { base: Config::default(), login: Login::default() }
}

#[test]
fn config_files() {
    assert_eq!(CONFIG_FILE, "ruda.toml");
    assert_eq!(secret_file_name("ruda.toml"), "secret.ruda.toml");
    assert_eq!(secret_file_name(""), "secret.");
    let c = Config::default();
    assert_eq!(c.name, "");
    assert_eq!(c.runner.platform_address, "realtime.ruda.app");
    assert_eq!(c.runner.code, 0);
    assert_eq!(Runner::default().test, "");
    let d = DashConfig::default();
    assert!(!d.local_runner);
    assert!(d.github.is_none());
    assert_eq!(Github::default().app_id, "");
    let l = Login::default();
    assert!(l.key.is_none() && l.credentials.is_none());
}

#[test]
fn runner_code_is_read_as_a_uuid() {
    let c = runner_config(cli_config(), "67e55044-10b1-426f-9247-bb680e5fe0c8").unwrap();
    assert_eq!(c.code, 0x67e55044_10b1_426f_9247_bb680e5fe0c8);
    assert_eq!(c.platform_address, "realtime.ruda.app");
    let c = runner_config(cli_config(), "67E5504410B1426F9247BB680E5FE0C8").unwrap();
    assert_eq!(c.code, 0x67e55044_10b1_426f_9247_bb680e5fe0c8);
    let c = runner_config(cli_config(), "{67e55044-10b1-426f-9247-bb680e5fe0c8}").unwrap();
    assert_eq!(c.code, 0x67e55044_10b1_426f_9247_bb680e5fe0c8);
    assert!(runner_config(cli_config(), "not-a-code").is_none());
    assert!(runner_config(cli_config(), "").is_none());
}

#[test]
fn service_is_started_as_runner_with_the_code() {
    assert_eq!(SERVICE_LABEL, "org.ruda.runner");
    assert_eq!(service_args("abc"), vec!["runner", "--code", "abc"]);
}

#[test]
fn runner_messages() {
    let cfg = runner::Config::default();
    assert_eq!(cfg.platform_address, "realtime.ruda.app");
    assert!(matches!(introduction(&cfg), Message::IntroductionRequest(0)));
    match status_response(8) {
        Message::StatusResponse(s) => assert_eq!(s, "cpus: 8"),
        other => panic!("unexpected {other:?}"),
    }
    match status_response(16) {
        Message::StatusResponse(s) => assert_eq!(s, "cpus: 16"),
        other => panic!("unexpected {other:?}"),
    }
    assert!(matches!(handle_msg(Message::IntroductionResponse(true)), Ok(None)));
    match handle_msg(Message::StatusRequest) {
        Ok(Some(Message::StatusResponse(s))) => {
            let n: usize = s.strip_prefix("cpus: ").unwrap().parse().unwrap();
            assert!(n >= 1);
        }
        Ok(other) => panic!("unexpected {other:?}"),
        Err(_) => {}
    }
}

#[test]
fn numerals() {
    assert_eq!(decimal_text(0), "0");
    assert_eq!(decimal_text(1234567890), "1234567890");
    assert_eq!(decimal_text(u64::MAX), u64::MAX.to_string());
    assert_eq!(signed_decimal_text(-42), "-42");
    assert_eq!(signed_decimal_text(i64::MIN), i64::MIN.to_string());
    assert_eq!(signed_decimal_text(7), "7");
}

#[test]
fn splitting() {
    assert_eq!(split_text("a/b/c", '/'), vec!["a", "b", "c"]);
    assert_eq!(split_text("", '/'), vec![""]);
    assert_eq!(split_text("/x/", '/'), vec!["", "x", ""]);
}

#[test]
fn name_generator_draws_numbered_names() {
    let mut g = NameGenerator { adjectives: vec!["red"], nouns: vec!["fox"] };
    for _ in 0..20 {
        let n = g.next().unwrap();
        assert!(n.starts_with("red-fox-"));
        let digits = &n["red-fox-".len()..];
        assert_eq!(digits.len(), 4);
        let v: u32 = digits.parse().unwrap();
        assert!((1..10000).contains(&v));
    }
}

#[test]
fn decimal_numbers_are_read_as_parse_does() {
    for s in ["0", "42", "+7", "18446744073709551615", "18446744073709551616", "", "+", "-1", "12a", " 1", "007"] {
        assert_eq!(parse_decimal_u64(s), s.parse::<u64>().ok(), "text {s:?}");
    }
}

#[test]
fn dashboard_startup() {
    let g = Github { app_id: "123456".to_string(), app_key: String::new() };
    assert_eq!(github_app_id(&g), Some(123456));
    let g = Github { app_id: "app".to_string(), app_key: String::new() };
    assert_eq!(github_app_id(&g), None);
    let (machine, config) = local_runner(1, 2);
    assert_eq!(machine.owner, 1);
    assert_eq!(machine.project, 2);
    assert_eq!(machine.kind, Kind::Managed);
    assert_eq!(machine.status, Status::Disconnected);
    assert_eq!(machine.address, "localhost");
    assert_eq!(config.platform_address, "127.0.0.1:10001");
    assert_eq!(config.code, machine.secret);
    let mut stored = vec![machine];
    assert!(ruda::dash::realtime::introduce(&mut stored, config.code));
    assert_eq!(stored[0].status, Status::Connected);
}
