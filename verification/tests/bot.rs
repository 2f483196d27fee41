use awstgbot::bot::{
    error_report, flow_message_text, info_entry, info_report, network_report, plan, shell_output_text, shell_reply,
    Action, Command, InstanceInfo, NetworkEntry,
};
use awstgbot::error::StringError;

const MAINTAINER: u64 = 12321321;

#[test]
fn maintainer_commands() {
    assert!(matches!(plan(Command::Network, Some(MAINTAINER), MAINTAINER), Action::ReportNetwork));
    assert!(matches!(plan(Command::Info, Some(MAINTAINER), MAINTAINER), Action::ReportInfo));
    match plan(Command::Shell("ls  -la /tmp".to_string()), Some(MAINTAINER), MAINTAINER) {
        Action::RunShell { program, args } => {
            assert_eq!(program, "ls");
            assert_eq!(args, vec!["-la", "/tmp"]);
        }
        _ => panic!("expected a program to run"),
    }
    assert!(matches!(plan(Command::Shell("   ".to_string()), Some(MAINTAINER), MAINTAINER), Action::Ignore));
}

#[test]
fn others_are_ignored() {
    for cmd in [Command::Network, Command::Info, Command::Shell("rm -rf /".to_string())] {
        assert!(matches!(plan(cmd.clone(), Some(42), MAINTAINER), Action::Ignore));
        assert!(matches!(plan(cmd, None, MAINTAINER), Action::Ignore));
    }
}

#[test]
fn anybody_gets_their_id() {
    match plan(Command::UserID, Some(42), MAINTAINER) {
        Action::Reply(t) => assert_eq!(t, "42"),
        _ => panic!("expected a reply"),
    }
    assert!(matches!(plan(Command::UserID, None, MAINTAINER), Action::Ignore));
}

#[test]
fn network_report_lists_instances() {
    let entries = vec![
        NetworkEntry { instance: "Debian-2".to_string(), flows: "NetworkIn: 1 B\n".to_string() },
        NetworkEntry { instance: "web".to_string(), flows: "x".to_string() },
    ];
    assert_eq!(
        network_report(&entries),
        "\nDebian\\-2\n```NetworkIn: 1 B\n```\n\n\nweb\n```x```\n\n"
    );
    assert_eq!(network_report(&vec![]), "");
}

#[test]
fn error_report_escapes() {
    assert_eq!(error_report(&StringError::new("no access.")), "no access\\.");
}

fn info(state: Option<&str>, public_ip: Option<&str>, ipv6: Vec<&str>) -> InstanceInfo {
    InstanceInfo {
        name: "Debian-2".to_string(),
        state: state.map(|s| s.to_string()),
        public_ip: public_ip.map(|s| s.to_string()),
        ipv6_addresses: ipv6.into_iter().map(|s| s.to_string()).collect(),
        private_ip: "172.26.0.1".to_string(),
        region: "us-east-1".to_string(),
        blueprint_name: "Debian".to_string(),
        blueprint_id: "debian_12".to_string(),
        bundle_id: "nano_3_0".to_string(),
    }
}

#[test]
fn info_entry_of_running_instance() {
    let i = info(Some("running"), Some("1.2.3.4"), vec!["::1", "fe80::1"]);
    assert_eq!(
        info_entry(&i),
        "\nDebian\\-2 🟢\n||1\\.2\\.3\\.4||\n||::1||\n||fe80::1||\n```\nPrivate IP: 172\\.26\\.0\\.1\nLocation: us\\-east\\-1\nState: running\nImage: Debian(debian\\_12)\nBound: nano\\_3\\_0\n```\n"
    );
}

#[test]
fn info_entry_of_stopped_instance() {
    let i = info(Some("stopped"), None, vec![]);
    assert_eq!(
        info_entry(&i),
        "\nDebian\\-2 🔴\n\n```\nPrivate IP: 172\\.26\\.0\\.1\nLocation: us\\-east\\-1\nState: stopped\nImage: Debian(debian\\_12)\nBound: nano\\_3\\_0\n```\n"
    );
    let j = info(None, None, vec![]);
    assert!(info_entry(&j).contains("🔴"));
    assert!(info_entry(&j).contains("\nState: \n"));
    assert_eq!(info_report(&vec![i.clone(), j.clone()]), info_entry(&i) + &info_entry(&j));
}

#[test]
fn shell_outcomes() {
    assert_eq!(shell_output_text(Ok("".to_string())), "result is empty");
    assert_eq!(shell_output_text(Ok("a\n".to_string())), "a\n");
    assert_eq!(shell_output_text(Err("No such file".to_string())), "No such file");
    assert_eq!(shell_reply("a-b\n"), "```bash\na\\-b\n\n```");
}

#[test]
fn flow_message_layout() {
    assert_eq!(
        flow_message_text("1 KB", "2 B", "1026 B"),
        "NetworkIn: 1 KB\nNetworkOut: 2 B\nAll: 1026 B\n\n"
    );
}
