use vstd::prelude::*;
use vstd::string::*;
use crate::game_map::{room_id_of_index, Room, RoomContents, RoomId, NUM_ROOMS};
use crate::game_state::{asked, GameMode, GameState, PendingInput};
use crate::platform::Effect;
use crate::util::{parse_i32, parse_i32_spec, str_eq};

verus! {

/// The maintenance console's help text.
pub open spec fn debug_help_effects() -> Seq<Effect> {
    seq![
        Effect::Text("Debug mode commands:"),
        Effect::Text(""),
        Effect::Text("quit            - exit debug mode"),
        Effect::Text("goto <room id>  - teleport to a room"),
        Effect::Text("rooms           - list rooms + their contents"),
        Effect::Text("version         - show version number"),
    ]
}

/// The room listing: one line per room, with a second line for any
/// contents.
pub open spec fn room_list_effects(rooms: Seq<Room>, n: int) -> Seq<Effect>
    decreases n,
{
    if n <= 0 {
        Seq::empty()
    } else {
        room_list_effects(rooms, n - 1) + seq![
            Effect::RoomInfo((n - 1) as usize, rooms[n - 1].name),
        ] + (match rooms[n - 1].contents {
            Some(RoomContents::Treasure(a)) => seq![Effect::RoomTreasureInfo(a)],
            Some(RoomContents::Terror(m)) => seq![Effect::RoomTerrorInfo(m)],
            None => Seq::empty(),
        })
    }
}

/// The position after any leading spaces from `i`.
pub open spec fn skip_spaces_from(s: Seq<char>, i: int) -> int
    decreases s.len() - i,
    when 0 <= i <= s.len()
{
    if i < s.len() && s[i] == ' ' {
        skip_spaces_from(s, i + 1)
    } else {
        i
    }
}

/// The position after the run of non-spaces from `i`.
pub open spec fn token_end(s: Seq<char>, i: int) -> int
    decreases s.len() - i,
    when 0 <= i <= s.len()
{
    if i < s.len() && s[i] != ' ' {
        token_end(s, i + 1)
    } else {
        i
    }
}

/// The room number named in a teleport argument: its first
/// whitespace-separated word, read as an unsigned decimal naming a room.
pub open spec fn goto_target(rest: Seq<char>) -> Option<RoomId> {
    let t0 = skip_spaces_from(rest, 0);
    let t1 = token_end(rest, t0);
    let tok = rest.subrange(t0, t1);
    let parsed = parse_i32_spec(tok);
    if tok.len() > 0 && tok[0] != '-' && parsed is Some && 0 <= parsed->Some_0 < NUM_ROOMS {
        Some(room_id_of_index(parsed->Some_0 as int))
    } else {
        None
    }
}

/// What a teleport command does: a valid room number moves the player
/// there; anything else is reported as unknown.
pub open spec fn goto_step(pre: GameState, post: GameState, rest: Seq<char>) -> bool {
    match goto_target(rest) {
        Some(r) => {
            &&& post == (GameState { effects: post.effects, curr_room: r, ..pre })
            &&& post.effects@ == pre.effects@.push(
                Effect::TeleportedTo(r.index_spec() as usize),
            )
        },
        None => {
            &&& post == (GameState { effects: post.effects, ..pre })
            &&& post.effects@ == pre.effects@.push(Effect::Text("Unknown room id."))
        },
    }
}

/// Whether a console line is a teleport command.
pub open spec fn is_goto(line: Seq<char>) -> bool {
    line.len() >= 5 && line.subrange(0, 5) == "goto "@
}

/// What one console line does.
pub open spec fn debug_input_step(pre: GameState, post: GameState, line: Seq<char>) -> bool {
    if line == "q"@ || line == "quit"@ {
        post == (GameState { curr_mode: GameMode::Primary, show_desc: true, ..pre })
    } else if line == "h"@ || line == "?"@ || line == "help"@ {
        &&& post == (GameState { effects: post.effects, ..pre })
        &&& post.effects@ == pre.effects@ + debug_help_effects()
    } else if line == "rooms"@ {
        &&& post == (GameState { effects: post.effects, ..pre })
        &&& post.effects@ == pre.effects@ + room_list_effects(
            pre.map.rooms@,
            NUM_ROOMS as int,
        )
    } else if is_goto(line) {
        goto_step(pre, post, line.skip(5))
    } else if line == "version"@ {
        &&& post == (GameState { effects: post.effects, ..pre })
        &&& post.effects@ == pre.effects@.push(Effect::VersionInfo)
    } else if line.len() > 0 {
        &&& post == (GameState { effects: post.effects, ..pre })
        &&& post.effects@ == pre.effects@.push(
            Effect::Text("Unrecognized command. Type ? for help."),
        )
    } else {
        post == pre
    }
}

impl GameState {
    /// The console's help text.
    fn print_help(&mut self)
        ensures
            *final(self) == (GameState { effects: final(self).effects, ..*old(self) }),
            final(self).effects@ == old(self).effects@ + debug_help_effects(),
    {
        self.effects.push(Effect::Text("Debug mode commands:"));
        self.effects.push(Effect::Text(""));
        self.effects.push(Effect::Text("quit            - exit debug mode"));
        self.effects.push(Effect::Text("goto <room id>  - teleport to a room"));
        self.effects.push(Effect::Text("rooms           - list rooms + their contents"));
        self.effects.push(Effect::Text("version         - show version number"));
        proof {
            assert(final(self).effects@ =~= old(self).effects@ + debug_help_effects());
        }
    }

    /// Teleport to the room a console argument names.
    fn goto_room(&mut self, rest: &str)
        requires
            old(self).map.wf(),
        ensures
            goto_step(*old(self), *final(self), rest@),
    {
        let len = rest.unicode_len();
        let mut t0: usize = 0;
        while t0 < len && rest.get_char(t0) == ' '
            invariant
                0 <= t0 <= len,
                len == rest@.len(),
                skip_spaces_from(rest@, 0) == skip_spaces_from(rest@, t0 as int),
            decreases len - t0,
        {
            t0 = t0 + 1;
        }
        let mut t1: usize = t0;
        while t1 < len && rest.get_char(t1) != ' '
            invariant
                t0 <= t1 <= len,
                len == rest@.len(),
                token_end(rest@, t0 as int) == token_end(rest@, t1 as int),
            decreases len - t1,
        {
            t1 = t1 + 1;
        }
        proof {
            assert(skip_spaces_from(rest@, t0 as int) == t0 as int);
            assert(token_end(rest@, t1 as int) == t1 as int);
        }
        let tok = rest.substring_char(t0, t1);
        let parsed = parse_i32(tok);
        let valid = t1 > t0 && tok.get_char(0) != '-' && match parsed {
            Some(n) => 0 <= n && n < NUM_ROOMS as i32,
            None => false,
        };
        if valid {
            let n = match parsed {
                Some(n) => n,
                None => vstd::pervasive::unreached(),
            };
            let room_id = match <RoomId as crate::sized_enum::SizedEnum>::from_index(n as usize) {
                Some(r) => r,
                None => vstd::pervasive::unreached(),
            };
            self.curr_room = room_id;
            self.effects.push(Effect::TeleportedTo(n as usize));
            proof {
                crate::game_map::lemma_room_id_index();
            }
        } else {
            self.effects.push(Effect::Text("Unknown room id."));
        }
    }

    /// List every room and what it holds.
    fn list_rooms(&mut self)
        requires
            old(self).map.wf(),
        ensures
            *final(self) == (GameState { effects: final(self).effects, ..*old(self) }),
            final(self).effects@ == old(self).effects@ + room_list_effects(
                old(self).map.rooms@,
                NUM_ROOMS as int,
            ),
    {
        let mut i: usize = 0;
        while i < NUM_ROOMS
            invariant
                i <= NUM_ROOMS,
                self.map == old(self).map,
                self.map.wf(),
                *self == (GameState { effects: self.effects, ..*old(self) }),
                self.effects@ == old(self).effects@ + room_list_effects(
                    old(self).map.rooms@,
                    i as int,
                ),
            decreases NUM_ROOMS - i,
        {
            let name = self.map.rooms[i].name;
            let contents = self.map.rooms[i].contents;
            self.effects.push(Effect::RoomInfo(i, name));
            match contents {
                Some(RoomContents::Treasure(a)) => {
                    self.effects.push(Effect::RoomTreasureInfo(a));
                },
                Some(RoomContents::Terror(m)) => {
                    self.effects.push(Effect::RoomTerrorInfo(m));
                },
                None => {},
            }
            proof {
                assert(self.effects@ =~= old(self).effects@ + room_list_effects(
                    old(self).map.rooms@,
                    i + 1,
                ));
            }
            i = i + 1;
        }
    }

    /// One tick at the console: show its prompt.
    pub fn tick_debug_mode(&mut self)
        requires
            old(self).input_callback is None,
        ensures
            asked(*old(self), *final(self), PendingInput::Debug),
    {
        self.ask(PendingInput::Debug);
    }

    /// The console prompt's handler.
    pub fn handle_debug_input(&mut self, line: &str)
        requires
            old(self).map.wf(),
        ensures
            debug_input_step(*old(self), *final(self), line@),
    {
        if str_eq(line, "q") || str_eq(line, "quit") {
            self.set_mode(GameMode::Primary);
        } else if str_eq(line, "h") || str_eq(line, "?") || str_eq(line, "help") {
            self.print_help();
        } else if str_eq(line, "rooms") {
            self.list_rooms();
        } else {
            let len = line.unicode_len();
            let goto = len >= 5 && {
                let head = line.substring_char(0, 5);
                str_eq(head, "goto ")
            };
            if goto {
                let rest = line.substring_char(5, len);
                self.goto_room(rest);
            } else if str_eq(line, "version") {
                self.effects.push(Effect::VersionInfo);
            } else if len > 0 {
                self.effects.push(Effect::Text("Unrecognized command. Type ? for help."));
            }
        }
    }
}

} // verus!
