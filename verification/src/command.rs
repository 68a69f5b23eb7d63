use vstd::prelude::*;
use vstd::string::*;
use crate::platform::Effect;

verus! {

/// One entry of a mode's command table: the key the player types, the
/// help text for it, the command it names, and whether the help listing
/// hides it.
pub struct CommandInfo<T> {
    pub key: char,
    pub desc: &'static str,
    pub cmd: T,
    pub hidden: bool,
}

impl<T> CommandInfo<T> {
    pub fn new(key: char, desc: &'static str, cmd: T) -> (info: CommandInfo<T>)
        ensures
            info.key == key,
            info.desc == desc,
            info.cmd == cmd,
            !info.hidden,
    {
        CommandInfo { key, desc, cmd, hidden: false }
    }

    /// The same entry, left out of help listings.
    pub fn hidden(self) -> (info: CommandInfo<T>)
        ensures
            info.key == self.key,
            info.desc == self.desc,
            info.cmd == self.cmd,
            info.hidden,
    {
        CommandInfo { hidden: true, ..self }
    }
}

/// The first table entry whose key is `c`, if any.
pub open spec fn spec_lookup<T>(cmds: Seq<CommandInfo<T>>, c: char) -> Option<T>
    decreases cmds.len(),
{
    if cmds.len() == 0 {
        None
    } else if cmds[0].key == c {
        Some(cmds[0].cmd)
    } else {
        spec_lookup(cmds.drop_first(), c)
    }
}

/// The help listing of a command table: one line per entry not hidden.
pub open spec fn help_lines<T>(cmds: Seq<CommandInfo<T>>) -> Seq<Effect>
    decreases cmds.len(),
{
    if cmds.len() == 0 {
        Seq::empty()
    } else {
        help_lines(cmds.drop_last()) + if !cmds.last().hidden {
            seq![Effect::HelpLine(cmds.last().key, cmds.last().desc)]
        } else {
            Seq::empty()
        }
    }
}

/// ASCII lowercasing of one character, as command keys are matched.
pub open spec fn lower_ascii_spec(c: char) -> char {
    if 'A' <= c && c <= 'Z' {
        ((c as u32) + 32) as char
    } else {
        c
    }
}

pub fn lower_ascii(c: char) -> (r: char)
    ensures
        r == lower_ascii_spec(c),
{
    if 'A' <= c && c <= 'Z' {
        (((c as u32) + 32) as u8) as char
    } else {
        c
    }
}

/// The keys that ask for the help listing in any mode.
pub open spec fn is_help_key(c: char) -> bool {
    c == 'h' || c == '?'
}

/// The command a whole input line names: its first character decides,
/// matched without regard to ASCII case, and the help keys name none.
pub open spec fn input_result<T>(cmds: Seq<CommandInfo<T>>, input: Seq<char>) -> Option<T> {
    if input.len() == 0 {
        None
    } else {
        let k = lower_ascii_spec(input[0]);
        if is_help_key(k) {
            None
        } else {
            spec_lookup(cmds, k)
        }
    }
}

/// What reading a command prints: nothing when a command was named, the
/// help listing for a help key, and a complaint otherwise.
pub open spec fn input_effects<T>(cmds: Seq<CommandInfo<T>>, input: Seq<char>) -> Seq<Effect> {
    if input.len() == 0 {
        seq![Effect::Text("I have no idea what you're talking about.")]
    } else {
        let k = lower_ascii_spec(input[0]);
        if is_help_key(k) {
            seq![
                Effect::Text("Here's what I understand right now:"),
                Effect::Text(""),
            ] + help_lines(cmds) + seq![Effect::Text("")]
        } else if spec_lookup(cmds, k) is Some {
            Seq::empty()
        } else {
            seq![Effect::Text("I have no idea what you're talking about.")]
        }
    }
}

/// A mode's command table and the reading of commands against it.
pub trait CommandProcessor<T: Copy>: Sized {
    spec fn spec_commands() -> Seq<CommandInfo<T>>;

    /// The table itself.
    fn get_command_info() -> (infos: Vec<CommandInfo<T>>)
        ensures
            infos@ == Self::spec_commands(),
    ;

    /// The command one key names, if any.
    fn from_char(c: char) -> (r: Option<T>)
        ensures
            r == spec_lookup(Self::spec_commands(), c),
    {
        let infos = Self::get_command_info();
        proof {
            assert(infos@.skip(0) =~= infos@);
        }
        let mut i: usize = 0;
        while i < infos.len()
            invariant
                i <= infos@.len(),
                infos@ == Self::spec_commands(),
                spec_lookup(Self::spec_commands(), c) == spec_lookup(
                    infos@.skip(i as int),
                    c,
                ),
            decreases infos@.len() - i,
        {
            if infos[i].key == c {
                return Some(infos[i].cmd);
            }
            proof {
                assert(infos@.skip(i as int).drop_first() =~= infos@.skip(i as int + 1));
            }
            i = i + 1;
        }
        proof {
            assert(infos@.skip(infos@.len() as int) =~= Seq::<CommandInfo<T>>::empty());
        }
        None
    }

    /// Append the help listing to the output queue.
    fn show_help(effects: &mut Vec<Effect>)
        ensures
            final(effects)@ == old(effects)@ + help_lines(Self::spec_commands()),
    {
        let infos = Self::get_command_info();
        proof {
            assert(infos@.take(0) =~= Seq::<CommandInfo<T>>::empty());
            assert(effects@ =~= old(effects)@ + help_lines(infos@.take(0)));
        }
        let mut i: usize = 0;
        while i < infos.len()
            invariant
                i <= infos@.len(),
                infos@ == Self::spec_commands(),
                effects@ == old(effects)@ + help_lines(infos@.take(i as int)),
            decreases infos@.len() - i,
        {
            proof {
                assert(infos@.take(i as int + 1).drop_last() =~= infos@.take(i as int));
            }
            if !infos[i].hidden {
                effects.push(Effect::HelpLine(infos[i].key, infos[i].desc));
            }
            i = i + 1;
        }
        proof {
            assert(infos@.take(infos@.len() as int) =~= infos@);
        }
    }

    /// Read one input line as a command, printing help or a complaint
    /// where it names none.
    fn get_from_input(input: &str, effects: &mut Vec<Effect>) -> (r: Option<T>)
        ensures
            r == input_result(Self::spec_commands(), input@),
            final(effects)@ == old(effects)@ + input_effects(Self::spec_commands(), input@),
            r is Some ==> *final(effects) == *old(effects),
    {
        let len = input.unicode_len();
        if len == 0 {
            effects.push(Effect::Text("I have no idea what you're talking about."));
            return None;
        }
        let k = lower_ascii(input.get_char(0));
        if k == 'h' || k == '?' {
            effects.push(Effect::Text("Here's what I understand right now:"));
            effects.push(Effect::Text(""));
            Self::show_help(effects);
            effects.push(Effect::Text(""));
            proof {
                assert(effects@ =~= old(effects)@ + input_effects(
                    Self::spec_commands(),
                    input@,
                ));
            }
            return None;
        }
        let r = Self::from_char(k);
        if r.is_none() {
            effects.push(Effect::Text("I have no idea what you're talking about."));
        }
        r
    }
}

} // verus!
