use batsignal::battery::Battery;
use batsignal::options::{
    apply_option, apply_tokens, parse_args, ArgError, Invocation, Step, Token, OPTIONS,
};
use batsignal::settings::{Settings, Timeout};

fn args(list: &[&str]) -> Vec<String> {
    list.iter().map(|s| s.to_string()).collect()
}

fn run(list: &[&str]) -> Result<Invocation, ArgError> {
    parse_args(&args(list), &args(&["AC", "BAT0", "BAT1"]))
}

fn settings_of(list: &[&str]) -> Settings {
    match run(list) {
        Ok(Invocation::Run { settings, skipped }) => {
            assert!(skipped.is_empty());
            settings
        }
        other => panic!("{:?}", other),
    }
}

fn opt(letter: char, argument: Option<&str>) -> Token {
    Token::Opt { letter, argument: argument.map(|s| s.to_string()) }
}

#[test]
fn no_options_give_the_defaults() {
    assert_eq!(settings_of(&["batsignal"]), Settings::default());
    assert_eq!(settings_of(&[]), Settings::default());
}

#[test]
fn options_string_is_the_documented_one() {
    assert_eq!(OPTIONS, "hvboeiw:c:d:f:W:C:D:F:n:s:a:I:");
}

#[test]
fn every_option_sets_its_field() {
    let s = settings_of(&[
        "batsignal", "-b", "-o", "-e", "-w", "30", "-c", "20", "-d", "10", "-f", "95", "-W",
        "low", "-C", "lower", "-D", "systemctl hibernate", "-F", "done", "-n", "BAT1,BAT0",
        "-s", "5", "-a", "app", "-I", "/icon.png",
    ]);
    let mut expected = Settings::default();
    expected.daemonize = true;
    expected.run_once = true;
    expected.notification_timeout = Timeout::Default;
    expected.warning = Some(30);
    expected.critical = Some(20);
    expected.danger = Some(10);
    expected.full = Some(95);
    expected.warningmsg = "low".to_string();
    expected.criticalmsg = "lower".to_string();
    expected.dangercmd = Some("systemctl hibernate".to_string());
    expected.fullmsg = "done".to_string();
    expected.batteries = vec![
        Battery::new("BAT1".to_string(), true).unwrap(),
        Battery::new("BAT0".to_string(), true).unwrap(),
    ];
    expected.sleep_interval = 5;
    expected.appname = "app".to_string();
    expected.icon = Some("/icon.png".to_string());
    assert_eq!(s, expected);
}

#[test]
fn clustered_options_and_attached_arguments_are_understood() {
    let s = settings_of(&["batsignal", "-ob", "-w25", "-ec3"]);
    assert!(s.run_once);
    assert_eq!(s.warning, Some(25));
    assert_eq!(s.critical, Some(3));
    assert_eq!(s.notification_timeout, Timeout::Default);
}

#[test]
fn levels_are_not_checked_while_parsing() {
    let s = settings_of(&["batsignal", "-w", "-5", "-c", "500"]);
    assert_eq!(s.warning, Some(-5));
    assert_eq!(s.critical, Some(500));
}

#[test]
fn parsing_stops_at_the_first_operand() {
    let s = settings_of(&["batsignal", "-o", "stop", "-w", "50"]);
    assert!(s.run_once);
    assert_eq!(s.warning, Some(15));
    let s = settings_of(&["batsignal", "--", "-o"]);
    assert!(!s.run_once);
}

#[test]
fn help_and_version_end_the_parsing() {
    assert_eq!(run(&["batsignal", "-h"]), Ok(Invocation::Help));
    assert_eq!(run(&["batsignal", "-v"]), Ok(Invocation::Version));
    assert_eq!(run(&["batsignal", "-o", "-h", "-w", "x"]), Ok(Invocation::Help));
    assert_eq!(run(&["batsignal", "-v", "-z"]), Ok(Invocation::Version));
}

#[test]
fn unknown_option_is_the_scanners_error() {
    assert_eq!(
        run(&["batsignal", "-z"]),
        Err(ArgError::Scan {
            missing_argument: false,
            detail: "unknown option -- 'z'".to_string()
        })
    );
}

#[test]
fn missing_argument_is_the_scanners_error() {
    assert_eq!(
        run(&["batsignal", "-o", "-w"]),
        Err(ArgError::Scan {
            missing_argument: true,
            detail: "option requires an argument -- 'w'".to_string()
        })
    );
}

#[test]
fn an_error_comes_before_a_later_help() {
    assert_eq!(run(&["batsignal", "-w", "x", "-h"]), Err(ArgError::Number { letter: 'w' }));
}

#[test]
fn numbers_must_be_numbers() {
    assert_eq!(run(&["batsignal", "-w", "ten"]), Err(ArgError::Number { letter: 'w' }));
    assert_eq!(run(&["batsignal", "-c", " 5"]), Err(ArgError::Number { letter: 'c' }));
    assert_eq!(run(&["batsignal", "-d", ""]), Err(ArgError::Number { letter: 'd' }));
    assert_eq!(run(&["batsignal", "-f", "1.5"]), Err(ArgError::Number { letter: 'f' }));
    assert_eq!(run(&["batsignal", "-s", "99999999999"]), Err(ArgError::Number { letter: 's' }));
}

#[test]
fn a_missing_battery_is_an_error() {
    assert_eq!(
        run(&["batsignal", "-n", "BAT0,BAT3"]),
        Err(ArgError::Battery { name: "BAT3".to_string() })
    );
}

#[test]
fn a_missing_battery_is_skipped_after_the_ignore_option() {
    assert_eq!(
        run(&["batsignal", "-i", "-n", "BAT3,BAT1"]),
        Ok(Invocation::Run {
            settings: {
                let mut s = Settings::default();
                s.ignore_missing = true;
                s.batteries = vec![Battery::new("BAT1".to_string(), true).unwrap()];
                s
            },
            skipped: vec!["BAT3".to_string()],
        })
    );
}

#[test]
fn one_option_changes_one_field() {
    let devices = args(&["BAT0"]);
    let mut s = Settings::default();
    assert_eq!(
        apply_option(&mut s, 'W', Some("careful".to_string()), &devices),
        Ok((Step::Continue, Vec::new()))
    );
    let mut expected = Settings::default();
    expected.warningmsg = "careful".to_string();
    assert_eq!(s, expected);
    assert_eq!(apply_option(&mut s, 'h', None, &devices), Ok((Step::Help, Vec::new())));
    assert_eq!(apply_option(&mut s, 'v', None, &devices), Ok((Step::Version, Vec::new())));
    assert_eq!(s, expected);
}

#[test]
fn an_option_in_an_unexpected_form_is_refused() {
    let devices = args(&["BAT0"]);
    let mut s = Settings::default();
    let unexpected = |letter| Err(ArgError::Unexpected { letter });
    assert_eq!(apply_option(&mut s, 'w', None, &devices), unexpected('w'));
    assert_eq!(apply_option(&mut s, 'n', None, &devices), unexpected('n'));
    assert_eq!(apply_option(&mut s, 'W', None, &devices), unexpected('W'));
    assert_eq!(apply_option(&mut s, 'h', Some("x".to_string()), &devices), unexpected('h'));
    assert_eq!(apply_option(&mut s, 'o', Some("x".to_string()), &devices), unexpected('o'));
    assert_eq!(apply_option(&mut s, 'z', None, &devices), unexpected('z'));
    assert_eq!(apply_option(&mut s, ':', None, &devices), unexpected(':'));
    assert_eq!(s, Settings::default());
}

#[test]
fn tokens_are_applied_in_order() {
    let devices = args(&["BAT0"]);
    let tokens = vec![opt('w', Some("40")), opt('w', Some("50")), opt('o', None)];
    let mut expected = Settings::default();
    expected.warning = Some(50);
    expected.run_once = true;
    assert_eq!(
        apply_tokens(Settings::default(), &tokens, &devices),
        Ok(Invocation::Run { settings: expected, skipped: Vec::new() })
    );
}

#[test]
fn the_first_fault_among_the_tokens_wins() {
    let devices = args(&["BAT0"]);
    let fault = Token::Fault { missing_argument: false, detail: "no".to_string() };
    let tokens = vec![opt('o', None), fault, opt('h', None)];
    assert_eq!(
        apply_tokens(Settings::default(), &tokens, &devices),
        Err(ArgError::Scan { missing_argument: false, detail: "no".to_string() })
    );
    let tokens = vec![opt('h', None), Token::Fault { missing_argument: true, detail: String::new() }];
    assert_eq!(apply_tokens(Settings::default(), &tokens, &devices), Ok(Invocation::Help));
}
