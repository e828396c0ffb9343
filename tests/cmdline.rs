use wold::cmdline::{scan_command_line, Directive};

fn args(list: &[&str]) -> Vec<String> {
    list.iter().map(|s| s.to_string()).collect()
}

#[test]
fn parse_command_line() {
    assert_eq!(scan_command_line(&args(&[])), vec![]);
    assert_eq!(
        scan_command_line(&args(&["-l", "127.0.0.1:3000"])),
        vec![Directive::Listen("127.0.0.1:3000".to_string())]
    );
    assert_eq!(
        scan_command_line(&args(&["-d", "127.0.0.1:3000"])),
        vec![Directive::Broadcast("127.0.0.1:3000".to_string())]
    );
    assert_eq!(scan_command_line(&args(&["--help"])), vec![Directive::Help]);
    assert_eq!(scan_command_line(&args(&["-h"])), vec![Directive::Help]);
    assert_eq!(
        scan_command_line(&args(&["-h", "-l", "127.0.0.1:3000"])),
        vec![Directive::Help]
    );
    assert_eq!(
        scan_command_line(&args(&["-l", "127.0.0.1:3000", "-h"])),
        vec![
            Directive::Listen("127.0.0.1:3000".to_string()),
            Directive::Help
        ]
    );
}

#[test]
fn scan_stops_at_unknown_option() {
    assert_eq!(
        scan_command_line(&args(&["-x", "-h"])),
        vec![Directive::Unknown("-x".to_string())]
    );
}

#[test]
fn option_without_value_is_unknown() {
    assert_eq!(
        scan_command_line(&args(&["-d", "1.2.3.4:9", "-l"])),
        vec![
            Directive::Broadcast("1.2.3.4:9".to_string()),
            Directive::Unknown("-l".to_string())
        ]
    );
}

#[test]
fn later_value_follows_earlier() {
    assert_eq!(
        scan_command_line(&args(&["-l", "a", "-l", "b"])),
        vec![
            Directive::Listen("a".to_string()),
            Directive::Listen("b".to_string())
        ]
    );
}
