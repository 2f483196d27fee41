use vstd::prelude::*;

use crate::error::StringError;
use crate::text::{
    concat, decimal, markdown_escape, markdown_escaped, markdown_unescaped, split_whitespace, string_views, u64_to_decimal,
    words,
};

verus! {

/// The commands the bot answers: `/network`, `/info`, `/shell <command line>`
/// and `/userid`.
#[derive(Debug, Clone)]
pub enum Command {
    /// The network traffic of each instance in the current month.
    Network,
    /// The details of each instance.
    Info,
    /// A command line to run on the bot's machine, for at most five seconds.
    Shell(String),
    /// The Telegram id of the user who asks.
    UserID,
}

/// What the bot does about a command.
#[derive(Debug, Clone)]
pub enum Action {
    /// Nothing: no work is done and no reply is sent.
    Ignore,
    /// Fetch the instances and their traffic, then reply with `network_report`
    /// (or `error_report`), as MarkdownV2.
    ReportNetwork,
    /// Fetch the instances' details, then reply with `info_report` (or
    /// `error_report`), as MarkdownV2.
    ReportInfo,
    /// Run `program` with `args`, then reply with `shell_reply` of
    /// `shell_output_text` of the outcome, as MarkdownV2.
    RunShell { program: String, args: Vec<String> },
    /// Reply with this plain text.
    Reply(String),
}

/// The action for `cmd` sent by `from_user` (none when the message has no
/// sender). Only the maintainer can have the instances looked up or a program
/// run; anybody can ask for their own id.
pub fn plan(cmd: Command, from_user: Option<u64>, maintainer: u64) -> (a: Action)
    ensures
        from_user is None ==> a is Ignore,
        !(cmd is UserID) && from_user != Some(maintainer) ==> a is Ignore,
        from_user == Some(maintainer) ==> match cmd {
            Command::Network => a is ReportNetwork,
            Command::Info => a is ReportInfo,
            Command::Shell(line) => if words(line@).len() == 0 {
                a is Ignore
            } else {
                a matches Action::RunShell { program, args } && program@ == words(line@)[0]
                    && string_views(args@) == words(line@).drop_first()
            },
            Command::UserID => true,
        },
        cmd is UserID ==> (from_user matches Some(id) ==> a matches Action::Reply(t) && t@
            == decimal(id as nat)),
{
    let user = match from_user {
        None => return Action::Ignore,
        Some(u) => u,
    };
    match cmd {
        Command::Network => {
            if user != maintainer {
                return Action::Ignore;
            }
            Action::ReportNetwork
        },
        Command::Info => {
            if user != maintainer {
                return Action::Ignore;
            }
            Action::ReportInfo
        },
        Command::Shell(line) => {
            if user != maintainer {
                return Action::Ignore;
            }
            let mut parts = split_whitespace(line.as_str());
            if parts.len() == 0 {
                return Action::Ignore;
            }
            let ghost before = parts@;
            let program = parts.remove(0);
            assert(string_views(parts@) == string_views(before).drop_first());
            Action::RunShell { program, args: parts }
        },
        Command::UserID => Action::Reply(u64_to_decimal(user)),
    }
}

fn append_escaped(r: &mut String, s: &str)
    ensures
        final(r)@ == old(r)@ + markdown_escaped(s@),
{
    let e = markdown_escape(s);
    r.append(e.as_str());
}

/// The reply to a failed lookup: the error's message, escaped.
pub fn error_report(e: &StringError) -> (r: String)
    ensures
        r@ == markdown_escaped(e@),
{
    markdown_escape(e.0.as_str())
}

/// The traffic of one instance: its name and the text that gives its flows.
#[derive(Debug, Clone)]
pub struct NetworkEntry {
    pub instance: String,
    pub flows: String,
}

/// The part of the network report for one instance.
pub open spec fn network_entry_text(e: NetworkEntry) -> Seq<char> {
    "\n"@ + markdown_escaped(e.instance@) + "\n```"@ + markdown_escaped(e.flows@) + "```\n\n"@
}

/// In the network report, the part of each instance starts with a newline
/// and then the instance's name escaped for MarkdownV2: that stretch, read
/// back, is the name.
pub proof fn lemma_network_entry_name(e: NetworkEntry)
    ensures
        network_entry_text(e)[0] == '\n',
        network_entry_text(e).subrange(1, 1 + markdown_escaped(e.instance@).len() as int)
            == markdown_escaped(e.instance@),
        markdown_unescaped(
            network_entry_text(e).subrange(1, 1 + markdown_escaped(e.instance@).len() as int),
        ) == e.instance@,
{
    reveal_strlit("\n");
    let x = markdown_escaped(e.instance@);
    let t = network_entry_text(e);
    let rest = "\n```"@ + markdown_escaped(e.flows@) + "```\n\n"@;
    assert(t == "\n"@ + x + rest);
    assert(t.subrange(1, 1 + x.len() as int) == x);
    crate::text::lemma_unescape_escaped(e.instance@);
}

/// The text that gives an instance's flows: incoming, outgoing and all
/// traffic, each already written with its unit.
pub fn flow_message_text(network_in: &str, network_out: &str, all: &str) -> (r: String)
    ensures
        r@ == "NetworkIn: "@ + network_in@ + "\nNetworkOut: "@ + network_out@ + "\nAll: "@ + all@
            + "\n\n"@,
{
    let mut r = String::from_str("NetworkIn: ");
    r.append(network_in);
    r.append("\nNetworkOut: ");
    r.append(network_out);
    r.append("\nAll: ");
    r.append(all);
    r.append("\n\n");
    r
}

/// The network report: the part of each instance, in order.
pub fn network_report(entries: &Vec<NetworkEntry>) -> (r: String)
    ensures
        r@ == concat(entries@.map_values(|e: NetworkEntry| network_entry_text(e))),
{
    let mut r = String::new();
    for i in 0..entries.len()
        invariant
            r@ == concat(entries@.take(i as int).map_values(|e: NetworkEntry| network_entry_text(e))),
    {
        assert(entries@.take(i + 1).map_values(|e: NetworkEntry| network_entry_text(e)).drop_last()
            == entries@.take(i as int).map_values(|e: NetworkEntry| network_entry_text(e)));
        let e = &entries[i];
        r.append("\n");
        append_escaped(&mut r, e.instance.as_str());
        r.append("\n```");
        append_escaped(&mut r, e.flows.as_str());
        r.append("```\n\n");
    }
    assert(entries@.take(entries.len() as int) == entries@);
    r
}

/// What the info report shows of an instance.
#[derive(Debug, Clone)]
pub struct InstanceInfo {
    /// The instance's name (empty when it has none).
    pub name: String,
    /// The name of its state, such as "running" (an empty name when the state
    /// has none); `None` when the instance has no state.
    pub state: Option<String>,
    pub public_ip: Option<String>,
    pub ipv6_addresses: Vec<String>,
    /// Its private address (empty when it has none).
    pub private_ip: String,
    /// The name of its region (empty when it has no location or region).
    pub region: String,
    pub blueprint_name: String,
    pub blueprint_id: String,
    pub bundle_id: String,
}

/// The mark of an instance's state: green when it is running, red otherwise.
pub open spec fn state_mark(state: Option<String>) -> Seq<char> {
    match state {
        Some(s) => if s@ == "running"@ {
            "🟢"@
        } else {
            "🔴"@
        },
        None => "🔴"@,
    }
}

/// The name of an instance's state, empty when it has none.
pub open spec fn state_name(state: Option<String>) -> Seq<char> {
    match state {
        Some(s) => s@,
        None => Seq::empty(),
    }
}

/// The line of a public address, hidden as a spoiler; nothing when there is none.
pub open spec fn public_ip_line(ip: Option<String>) -> Seq<char> {
    match ip {
        Some(a) => "||"@ + markdown_escaped(a@) + "||\n"@,
        None => Seq::empty(),
    }
}

/// The IPv6 addresses, each hidden as a spoiler, one per line.
pub open spec fn ipv6_lines(addresses: Seq<String>) -> Seq<char>
    decreases addresses.len(),
{
    if addresses.len() == 0 {
        Seq::empty()
    } else if addresses.len() == 1 {
        "||"@ + markdown_escaped(addresses[0]@) + "||"@
    } else {
        ipv6_lines(addresses.drop_last()) + "\n"@ + "||"@ + markdown_escaped(addresses.last()@)
            + "||"@
    }
}

/// The part of the info report for one instance.
pub open spec fn info_entry_text(i: InstanceInfo) -> Seq<char> {
    "\n"@ + markdown_escaped(i.name@) + " "@ + state_mark(i.state) + "\n"@ + public_ip_line(
        i.public_ip,
    ) + ipv6_lines(i.ipv6_addresses@) + "\n```\nPrivate IP: "@ + markdown_escaped(i.private_ip@)
        + "\nLocation: "@ + markdown_escaped(i.region@) + "\nState: "@ + markdown_escaped(
        state_name(i.state),
    ) + "\nImage: "@ + markdown_escaped(i.blueprint_name@) + "("@ + markdown_escaped(
        i.blueprint_id@,
    ) + ")\nBound: "@ + markdown_escaped(i.bundle_id@) + "\n```\n"@
}

/// The mark that follows an instance's name in the info report is green
/// exactly when the instance's state is named "running", and red for every
/// other state and for no state.
pub proof fn lemma_info_entry_mark(i: InstanceInfo)
    ensures
        info_entry_text(i).subrange(0, 2 + markdown_escaped(i.name@).len() as int) == "\n"@
            + markdown_escaped(i.name@) + " "@,
        info_entry_text(i)[2 + markdown_escaped(i.name@).len() as int] == if i.state matches Some(s)
            && s@ == "running"@ {
            '🟢'
        } else {
            '🔴'
        },
{
    reveal_strlit("\n");
    reveal_strlit(" ");
    reveal_strlit("🟢");
    reveal_strlit("🔴");
    let x = markdown_escaped(i.name@);
    let t = info_entry_text(i);
    let head = "\n"@ + x + " "@;
    let rest = "\n"@ + public_ip_line(i.public_ip) + ipv6_lines(i.ipv6_addresses@)
        + "\n```\nPrivate IP: "@ + markdown_escaped(i.private_ip@) + "\nLocation: "@
        + markdown_escaped(i.region@) + "\nState: "@ + markdown_escaped(state_name(i.state))
        + "\nImage: "@ + markdown_escaped(i.blueprint_name@) + "("@ + markdown_escaped(
        i.blueprint_id@,
    ) + ")\nBound: "@ + markdown_escaped(i.bundle_id@) + "\n```\n"@;
    assert(t == head + state_mark(i.state) + rest);
    assert(head.len() == 2 + x.len());
    assert(t.subrange(0, head.len() as int) == head);
    assert(state_mark(i.state).len() == 1);
    assert(t[head.len() as int] == state_mark(i.state)[0]);
}

fn append_ipv6_lines(r: &mut String, addresses: &Vec<String>)
    ensures
        final(r)@ == old(r)@ + ipv6_lines(addresses@),
{
    let ghost start = r@;
    for k in 0..addresses.len()
        invariant
            r@ == start + ipv6_lines(addresses@.take(k as int)),
    {
        assert(addresses@.take(k + 1).drop_last() == addresses@.take(k as int));
        if k > 0 {
            r.append("\n");
        }
        r.append("||");
        append_escaped(r, addresses[k].as_str());
        r.append("||");
    }
    assert(addresses@.take(addresses.len() as int) == addresses@);
}

/// The part of the info report for one instance.
pub fn info_entry(i: &InstanceInfo) -> (r: String)
    ensures
        r@ == info_entry_text(*i),
{
    let mut r = String::new();
    r.append("\n");
    append_escaped(&mut r, i.name.as_str());
    r.append(" ");
    let running = String::from_str("running");
    match &i.state {
        Some(s) => {
            if *s == running {
                r.append("🟢");
            } else {
                r.append("🔴");
            }
        },
        None => r.append("🔴"),
    }
    r.append("\n");
    match &i.public_ip {
        Some(a) => {
            r.append("||");
            append_escaped(&mut r, a.as_str());
            r.append("||\n");
        },
        None => {},
    }
    append_ipv6_lines(&mut r, &i.ipv6_addresses);
    r.append("\n```\nPrivate IP: ");
    append_escaped(&mut r, i.private_ip.as_str());
    r.append("\nLocation: ");
    append_escaped(&mut r, i.region.as_str());
    r.append("\nState: ");
    match &i.state {
        Some(s) => append_escaped(&mut r, s.as_str()),
        None => {
            assert(markdown_escaped(Seq::<char>::empty()) == Seq::<char>::empty());
            assert(r@ + markdown_escaped(Seq::<char>::empty()) == r@);
        },
    }
    r.append("\nImage: ");
    append_escaped(&mut r, i.blueprint_name.as_str());
    r.append("(");
    append_escaped(&mut r, i.blueprint_id.as_str());
    r.append(")\nBound: ");
    append_escaped(&mut r, i.bundle_id.as_str());
    r.append("\n```\n");
    r
}

/// The info report: the part of each instance, in order.
pub fn info_report(infos: &Vec<InstanceInfo>) -> (r: String)
    ensures
        r@ == concat(infos@.map_values(|i: InstanceInfo| info_entry_text(i))),
{
    let mut r = String::new();
    for k in 0..infos.len()
        invariant
            r@ == concat(infos@.take(k as int).map_values(|i: InstanceInfo| info_entry_text(i))),
    {
        assert(infos@.take(k + 1).map_values(|i: InstanceInfo| info_entry_text(i)).drop_last()
            == infos@.take(k as int).map_values(|i: InstanceInfo| info_entry_text(i)));
        let e = info_entry(&infos[k]);
        r.append(e.as_str());
    }
    assert(infos@.take(infos.len() as int) == infos@);
    r
}

/// The text that reports a program's outcome: the error's message, the
/// output, or "result is empty" when the output is empty.
pub open spec fn shell_output(outcome: Result<String, String>) -> Seq<char> {
    match outcome {
        Err(e) => e@,
        Ok(out) => if out@.len() == 0 {
            "result is empty"@
        } else {
            out@
        },
    }
}

/// The text that reports a program's outcome.
pub fn shell_output_text(outcome: Result<String, String>) -> (r: String)
    ensures
        r@ == shell_output(outcome),
{
    match outcome {
        Err(e) => e,
        Ok(out) => {
            if out.as_str().is_empty() {
                String::from_str("result is empty")
            } else {
                out
            }
        },
    }
}

/// The reply that shows a program's outcome as an escaped bash code block.
pub fn shell_reply(text: &str) -> (r: String)
    ensures
        r@ == "```bash\n"@ + markdown_escaped(text@) + "\n```"@,
{
    let mut r = String::from_str("```bash\n");
    append_escaped(&mut r, text);
    r.append("\n```");
    r
}

} // verus!
