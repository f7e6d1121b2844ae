//! The configuration as text, for the operator to read at startup.

use vstd::prelude::*;
use vstd::string::*;
use crate::config::{CommandView, Config, ConfigView, CustomCommand, Pairs, Registry};
use crate::table::{pairs_view, KeyedTable};

verus! {

/// The line of one setting: two spaces, the key, a colon, a space, the
/// value.
pub open spec fn setting_line(key: Seq<char>, value: Seq<char>) -> Seq<char> {
    "  "@ + key + ": "@ + value + "\n"@
}

/// The lines of the settings of `pairs`, in order.
pub open spec fn settings_text(pairs: Pairs) -> Seq<char>
    decreases pairs.len(),
{
    if pairs.len() == 0 {
        Seq::empty()
    } else {
        settings_text(pairs.drop_last()) + setting_line(pairs.last().0, pairs.last().1)
    }
}

/// The lines of one command: its key, then its four texts, each on a line of
/// its own.
pub open spec fn command_text(key: Seq<char>, command: CommandView) -> Seq<char> {
    key + ":\n"@ + "  Name: "@ + command.name + "\n"@ + "  Value: "@ + command.value + "\n"@
        + "  Command: "@ + command.command + "\n"@ + "  Description: "@ + command.description
        + "\n"@
}

/// The lines of the commands of `registry`, in order.
pub open spec fn commands_text(registry: Registry) -> Seq<char>
    decreases registry.len(),
{
    if registry.len() == 0 {
        Seq::empty()
    } else {
        commands_text(registry.drop_last()) + command_text(
            registry.last().0,
            registry.last().1,
        )
    }
}

/// The whole configuration as text: the web settings, the paths and the
/// commands, each under its heading.
pub open spec fn config_report(config: ConfigView) -> Seq<char> {
    "Web Configuration:\n"@ + settings_text(config.webconf) + "\nPaths:\n"@ + settings_text(
        config.paths,
    ) + "\nCommands:\n"@ + commands_text(config.commands)
}

/// Appends the lines of the settings of `table` to `out`.
pub fn push_settings(out: &mut String, table: &KeyedTable<String>)
    ensures
        final(out)@ == old(out)@ + settings_text(table@),
{
    let entries = table.entries();
    let mut i: usize = 0;
    assert(table@.take(0) =~= Seq::<(Seq<char>, Seq<char>)>::empty());
    assert(out@ + settings_text(table@.take(0)) =~= old(out)@);
    while i < entries.len()
        invariant
            i <= entries.len(),
            pairs_view(entries@) == table@,
            out@ == old(out)@ + settings_text(table@.take(i as int)),
        decreases entries.len() - i,
    {
        let ghost before = out@;
        out.append("  ");
        out.append(entries[i].0.as_str());
        out.append(": ");
        out.append(entries[i].1.as_str());
        out.append("\n");
        proof {
            let upto = table@.take(i + 1);
            assert(upto.drop_last() =~= table@.take(i as int));
            assert(upto.last() == table@[i as int]);
            assert(out@ =~= before + setting_line(table@[i as int].0, table@[i as int].1));
            assert(out@ =~= old(out)@ + settings_text(upto));
        }
        i += 1;
    }
    assert(table@.take(i as int) =~= table@);
}

/// Appends the lines of the command `command` with the key `key` to `out`.
pub fn push_command(out: &mut String, key: &str, command: &CustomCommand)
    ensures
        final(out)@ == old(out)@ + command_text(key@, command@),
{
    out.append(key);
    out.append(":\n");
    out.append("  Name: ");
    out.append(command.name.as_str());
    out.append("\n");
    out.append("  Value: ");
    out.append(command.value.as_str());
    out.append("\n");
    out.append("  Command: ");
    out.append(command.command.as_str());
    out.append("\n");
    out.append("  Description: ");
    out.append(command.description.as_str());
    out.append("\n");
    assert(out@ =~= old(out)@ + command_text(key@, command@));
}

/// The whole configuration as text.
pub fn report_config(config: &Config) -> (text: String)
    ensures
        text@ == config_report(config@),
{
    let mut text = "Web Configuration:\n".to_owned();
    push_settings(&mut text, &config.webconf);
    text.append("\nPaths:\n");
    push_settings(&mut text, &config.paths);
    text.append("\nCommands:\n");
    let ghost heading = text@;
    let entries = config.commands.entries();
    let registry = Ghost(config.commands@);
    let mut i: usize = 0;
    assert(registry@.take(0) =~= Seq::<(Seq<char>, CommandView)>::empty());
    assert(heading + commands_text(registry@.take(0)) =~= heading);
    while i < entries.len()
        invariant
            i <= entries.len(),
            pairs_view(entries@) == registry@,
            text@ == heading + commands_text(registry@.take(i as int)),
        decreases entries.len() - i,
    {
        push_command(&mut text, entries[i].0.as_str(), &entries[i].1);
        proof {
            let upto = registry@.take(i + 1);
            assert(upto.drop_last() =~= registry@.take(i as int));
            assert(upto.last() == registry@[i as int]);
            assert(text@ =~= heading + commands_text(upto));
        }
        i += 1;
    }
    assert(registry@.take(i as int) =~= registry@);
    assert(text@ =~= config_report(config@));
    text
}

} // verus!
