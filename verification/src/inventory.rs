use vstd::prelude::*;
use vstd::string::*;
use crate::command::{input_effects, input_result, is_help_key, lower_ascii, lower_ascii_spec, CommandInfo, CommandProcessor};
use crate::game_state::{asked, cheat_penalty, GameMode, GameState, PendingInput};
use crate::items::{Item, NUM_ITEMS};
use crate::platform::Effect;

verus! {

/// What the player owns: a non-negative quantity of each catalog item.
pub struct Inventory {
    pub quantities: Vec<i32>,
}

impl Inventory {
    /// One slot per item, and no quantity ever goes negative.
    pub open spec fn wf(&self) -> bool {
        &&& self.quantities@.len() == NUM_ITEMS
        &&& forall|j: int| 0 <= j < self.quantities@.len() ==> 0 <= #[trigger] self.quantities@[j]
    }

    pub open spec fn spec_quantity(&self, item: Item) -> int {
        self.quantities@[item.index_spec()] as int
    }

    pub open spec fn spec_owns(&self, item: Item) -> bool {
        self.spec_quantity(item) > 0
    }

    /// An inventory holding nothing.
    pub fn new() -> (inv: Inventory)
        ensures
            inv.wf(),
            forall|item: Item| inv.spec_quantity(item) == 0,
    {
        let mut quantities: Vec<i32> = Vec::new();
        let mut i: usize = 0;
        while i < NUM_ITEMS
            invariant
                i <= NUM_ITEMS,
                quantities@.len() == i,
                forall|j: int| 0 <= j < i ==> quantities@[j] == 0,
            decreases NUM_ITEMS - i,
        {
            quantities.push(0);
            i = i + 1;
        }
        Inventory { quantities }
    }

    /// Whether at least one of `item` is owned.
    pub fn owns(&self, item: Item) -> (r: bool)
        requires
            self.wf(),
        ensures
            r == self.spec_owns(item),
    {
        self.quantities[item.index()] > 0
    }

    /// How many of `item` are owned.
    pub fn get_quantity(&self, item: Item) -> (q: i32)
        requires
            self.wf(),
        ensures
            q == self.spec_quantity(item),
    {
        self.quantities[item.index()]
    }

    /// Overwrite the quantity of `item`.
    pub fn set_quantity(&mut self, item: Item, amount: i32)
        requires
            old(self).wf(),
            amount >= 0,
        ensures
            final(self).wf(),
            final(self).spec_quantity(item) == amount,
            forall|other: Item|
                other != item ==> final(self).spec_quantity(other) == old(self).spec_quantity(
                    other,
                ),
    {
        self.quantities.set(item.index(), amount);
    }

    /// Add `amount` of `item`.
    pub fn increase(&mut self, item: Item, amount: i32)
        requires
            old(self).wf(),
            amount >= 0,
            old(self).spec_quantity(item) + amount <= i32::MAX,
        ensures
            final(self).wf(),
            final(self).spec_quantity(item) == old(self).spec_quantity(item) + amount,
            forall|other: Item|
                other != item ==> final(self).spec_quantity(other) == old(self).spec_quantity(
                    other,
                ),
    {
        let i = item.index();
        let q = self.quantities[i];
        self.quantities.set(i, q + amount);
    }

    /// Remove `amount` of `item`; never more than is owned.
    pub fn decrease(&mut self, item: Item, amount: i32)
        requires
            old(self).wf(),
            0 <= amount <= old(self).spec_quantity(item),
        ensures
            final(self).wf(),
            final(self).spec_quantity(item) == old(self).spec_quantity(item) - amount,
            forall|other: Item|
                other != item ==> final(self).spec_quantity(other) == old(self).spec_quantity(
                    other,
                ),
    {
        let i = item.index();
        let q = self.quantities[i];
        self.quantities.set(i, q - amount);
    }

    /// Come to own exactly one of `item`.
    pub fn obtain(&mut self, item: Item)
        requires
            old(self).wf(),
        ensures
            final(self).wf(),
            final(self).spec_quantity(item) == 1,
            forall|other: Item|
                other != item ==> final(self).spec_quantity(other) == old(self).spec_quantity(
                    other,
                ),
    {
        self.quantities.set(item.index(), 1);
    }

    /// Lose every `item` owned.
    pub fn lose(&mut self, item: Item)
        requires
            old(self).wf(),
        ensures
            final(self).wf(),
            final(self).spec_quantity(item) == 0,
            forall|other: Item|
                other != item ==> final(self).spec_quantity(other) == old(self).spec_quantity(
                    other,
                ),
    {
        self.quantities.set(item.index(), 0);
    }
}

/// What the player can do in the shop.
#[derive(Debug, Copy, Clone)]
pub enum InventoryCommand {
    /// Buy an item (food by the unit, anything else once).
    Buy(Item),
    /// Go back to exploring.
    Leave,
}

impl CommandProcessor<InventoryCommand> for InventoryCommand {
    open spec fn spec_commands() -> Seq<CommandInfo<InventoryCommand>> {
        seq![
            CommandInfo {
                key: '1',
                desc: "buy a flaming torch ($15)",
                cmd: InventoryCommand::Buy(Item::Torch),
                hidden: false,
            },
            CommandInfo {
                key: '2',
                desc: "buy an axe ($10)",
                cmd: InventoryCommand::Buy(Item::Axe),
                hidden: false,
            },
            CommandInfo {
                key: '3',
                desc: "buy a sword ($20)",
                cmd: InventoryCommand::Buy(Item::Sword),
                hidden: false,
            },
            CommandInfo {
                key: '4',
                desc: "buy food ($4 per unit)",
                cmd: InventoryCommand::Buy(Item::Food),
                hidden: false,
            },
            CommandInfo {
                key: '5',
                desc: "buy the magic amulet ($30)",
                cmd: InventoryCommand::Buy(Item::Amulet),
                hidden: false,
            },
            CommandInfo {
                key: '6',
                desc: "buy a suit of armor ($50)",
                cmd: InventoryCommand::Buy(Item::Armor),
                hidden: false,
            },
            CommandInfo {
                key: '0',
                desc: "continue adventure",
                cmd: InventoryCommand::Leave,
                hidden: false,
            },
            CommandInfo {
                key: 'q',
                desc: "continue adventure",
                cmd: InventoryCommand::Leave,
                hidden: true,
            },
        ]
    }

    fn get_command_info() -> (infos: Vec<CommandInfo<InventoryCommand>>)
        ensures
            infos@ == Self::spec_commands(),
    {
        let infos = vec![
            CommandInfo::new('1', "buy a flaming torch ($15)", InventoryCommand::Buy(Item::Torch)),
            CommandInfo::new('2', "buy an axe ($10)", InventoryCommand::Buy(Item::Axe)),
            CommandInfo::new('3', "buy a sword ($20)", InventoryCommand::Buy(Item::Sword)),
            CommandInfo::new('4', "buy food ($4 per unit)", InventoryCommand::Buy(Item::Food)),
            CommandInfo::new(
                '5',
                "buy the magic amulet ($30)",
                InventoryCommand::Buy(Item::Amulet),
            ),
            CommandInfo::new('6', "buy a suit of armor ($50)", InventoryCommand::Buy(Item::Armor)),
            CommandInfo::new('0', "continue adventure", InventoryCommand::Leave),
            CommandInfo::new('q', "continue adventure", InventoryCommand::Leave).hidden(),
        ];
        proof {
            assert(infos@ =~= Self::spec_commands());
        }
        infos
    }
}

/// What paying for `quantity` of `item` does: short funds are punished
/// as cheating; otherwise the price is paid, the goods are handed over,
/// and the new balance is reported.
pub open spec fn buy_quantity_step(
    pre: GameState,
    post: GameState,
    item: Item,
    quantity: i32,
) -> bool {
    let total = item.price_spec() * quantity;
    if pre.wealth < total {
        cheat_penalty(pre, post)
    } else {
        &&& post == (GameState {
            effects: post.effects,
            wealth: (pre.wealth - total) as i32,
            items: post.items,
            ..pre
        })
        &&& post.items.wf()
        &&& if item == Item::Food {
            &&& post.items.spec_quantity(Item::Food) == pre.items.spec_quantity(Item::Food)
                + quantity
            &&& forall|other: Item|
                other != Item::Food ==> post.items.spec_quantity(other)
                    == pre.items.spec_quantity(other)
        } else {
            &&& post.items.spec_quantity(item) == 1
            &&& forall|other: Item|
                other != item ==> post.items.spec_quantity(other) == pre.items.spec_quantity(
                    other,
                )
        }
        &&& post.effects@ == pre.effects@ + seq![
            if item == Item::Food {
                Effect::BoughtUnits(quantity, item)
            } else {
                Effect::Bought(item)
            },
            if pre.wealth - total > 0 {
                Effect::WealthAmount((pre.wealth - total) as i32)
            } else {
                Effect::Text("You have no money.")
            },
        ]
    }
}

/// What choosing something in the shop does: a durable item already
/// owned is refused; food asks for a unit count; anything else is paid
/// for at once; leaving returns to exploring.
pub open spec fn inventory_cmd_step(
    pre: GameState,
    post: GameState,
    cmd: InventoryCommand,
) -> bool {
    match cmd {
        InventoryCommand::Buy(item) => if item != Item::Food && pre.items.spec_owns(item) {
            &&& post == (GameState { effects: post.effects, ..pre })
            &&& post.effects@ == pre.effects@.push(Effect::AlreadyOwn(item))
        } else if item == Item::Food {
            asked(pre, post, PendingInput::BuyAmount(item))
        } else {
            buy_quantity_step(pre, post, item, 1)
        },
        InventoryCommand::Leave => post == (GameState {
            curr_mode: GameMode::Primary,
            show_desc: true,
            ..pre
        }),
    }
}

/// What answering the unit-count question does: zero or less is waved
/// off; a positive count is paid for.
pub open spec fn buy_amount_step(
    pre: GameState,
    post: GameState,
    item: Item,
    amount: i32,
) -> bool {
    if amount <= 0 {
        &&& post == (GameState { effects: post.effects, ..pre })
        &&& post.effects@ == pre.effects@.push(Effect::Text("Fine, don't buy any then."))
    } else {
        buy_quantity_step(pre, post, item, amount)
    }
}

/// One tick in the shop: the stall is laid out once, then the player is
/// asked what to buy.
pub open spec fn inventory_step(pre: GameState, post: GameState) -> bool {
    &&& post == (GameState {
        effects: post.effects,
        show_desc: false,
        input_callback: Some(PendingInput::Inventory),
        read_input_again: false,
        ..pre
    })
    &&& post.effects@ == pre.effects@ + (if pre.show_desc {
        seq![Effect::Text("Provisions & inventory"), Effect::Text("")] + seq![
            if pre.wealth > 0 {
                Effect::WealthAmount(pre.wealth)
            } else {
                Effect::Text("You have no money.")
            },
            Effect::Text(""),
        ] + crate::command::help_lines(InventoryCommand::spec_commands()) + seq![Effect::Text("")]
    } else {
        Seq::empty()
    }) + seq![Effect::Prompt(PendingInput::Inventory.prompt_spec())]
}

/// What answering the shop prompt does.  A selection that names no
/// command (and is not a help request) defaults to leaving the shop.
pub open spec fn inventory_input_step(pre: GameState, post: GameState, line: Seq<char>) -> bool {
    let io = input_effects(InventoryCommand::spec_commands(), line);
    match input_result(InventoryCommand::spec_commands(), line) {
        Some(cmd) => inventory_cmd_step(pre, post, cmd),
        None => if line.len() > 0 && !is_help_key(lower_ascii_spec(line[0])) {
            &&& post == (GameState {
                effects: post.effects,
                curr_mode: GameMode::Primary,
                show_desc: true,
                ..pre
            })
            &&& post.effects@ == pre.effects@ + io
        } else {
            &&& post == (GameState { effects: post.effects, ..pre })
            &&& post.effects@ == pre.effects@ + io
        },
    }
}

impl GameState {
    /// Pay for `quantity` of `item`, or be punished for trying.
    fn buy_quantity(&mut self, item: Item, quantity: i32)
        requires
            old(self).items.wf(),
            old(self).counters_ok(),
            1 <= quantity,
        ensures
            buy_quantity_step(*old(self), *final(self), item, quantity),
    {
        let price = item.price();
        let total: i64 = price as i64 * quantity as i64;
        if (self.wealth as i64) < total {
            self.accuse_player_of_cheating();
        } else {
            self.wealth = self.wealth - total as i32;
            if item.can_own_many() {
                self.items.increase(item, quantity);
                self.effects.push(Effect::BoughtUnits(quantity, item));
            } else {
                self.items.obtain(item);
                self.effects.push(Effect::Bought(item));
            }
            self.print_wealth();
            proof {
                assert(final(self).effects@ =~= old(self).effects@ + seq![
                    if item == Item::Food {
                        Effect::BoughtUnits(quantity, item)
                    } else {
                        Effect::Bought(item)
                    },
                    if old(self).wealth - item.price_spec() * quantity > 0 {
                        Effect::WealthAmount(
                            (old(self).wealth - item.price_spec() * quantity) as i32,
                        )
                    } else {
                        Effect::Text("You have no money.")
                    },
                ]);
            }
        }
    }

    /// Start buying `item`: food asks for a unit count first.
    fn buy(&mut self, item: Item)
        requires
            old(self).items.wf(),
            old(self).counters_ok(),
            old(self).input_callback is None,
        ensures
            item == Item::Food ==> asked(
                *old(self),
                *final(self),
                PendingInput::BuyAmount(item),
            ),
            item != Item::Food ==> buy_quantity_step(*old(self), *final(self), item, 1),
    {
        if item.can_own_many() {
            self.ask_i32(PendingInput::BuyAmount(item));
        } else {
            self.buy_quantity(item, 1);
        }
    }

    /// Carry out one shop command.
    fn process_inventory_cmd(&mut self, cmd: InventoryCommand)
        requires
            old(self).items.wf(),
            old(self).counters_ok(),
            old(self).input_callback is None,
        ensures
            inventory_cmd_step(*old(self), *final(self), cmd),
    {
        match cmd {
            InventoryCommand::Buy(item) => {
                if !item.can_own_many() && self.items.owns(item) {
                    self.effects.push(Effect::AlreadyOwn(item));
                } else {
                    self.buy(item);
                }
            },
            InventoryCommand::Leave => self.set_mode(GameMode::Primary),
        }
    }

    /// One tick in the shop.
    pub fn tick_inventory_mode(&mut self)
        requires
            old(self).input_callback is None,
        ensures
            inventory_step(*old(self), *final(self)),
    {
        if self.show_desc {
            self.effects.push(Effect::Text("Provisions & inventory"));
            self.effects.push(Effect::Text(""));
            self.print_wealth();
            self.effects.push(Effect::Text(""));
            InventoryCommand::show_help(&mut self.effects);
            self.effects.push(Effect::Text(""));
            self.show_desc = false;
        }
        self.ask(PendingInput::Inventory);
        proof {
            assert(final(self).effects@ =~= old(self).effects@ + (if old(self).show_desc {
                seq![Effect::Text("Provisions & inventory"), Effect::Text("")] + seq![
                    if old(self).wealth > 0 {
                        Effect::WealthAmount(old(self).wealth)
                    } else {
                        Effect::Text("You have no money.")
                    },
                    Effect::Text(""),
                ] + crate::command::help_lines(InventoryCommand::spec_commands()) + seq![
                    Effect::Text(""),
                ]
            } else {
                Seq::<Effect>::empty()
            }) + seq![Effect::Prompt(PendingInput::Inventory.prompt_spec())]);
        }
    }

    /// The shop prompt's handler.
    pub fn handle_inventory_input(&mut self, line: &str)
        requires
            old(self).items.wf(),
            old(self).counters_ok(),
            old(self).input_callback is None,
        ensures
            inventory_input_step(*old(self), *final(self), line@),
    {
        let cmd = InventoryCommand::get_from_input(line, &mut self.effects);
        match cmd {
            Some(c) => self.process_inventory_cmd(c),
            None => {
                let len = line.unicode_len();
                if len > 0 {
                    let k = lower_ascii(line.get_char(0));
                    if !(k == 'h' || k == '?') {
                        self.set_mode(GameMode::Primary);
                    }
                }
            },
        }
    }

    /// The unit-count question's handler.
    pub fn handle_buy_amount(&mut self, item: Item, amount: i32)
        requires
            old(self).items.wf(),
            old(self).counters_ok(),
        ensures
            buy_amount_step(*old(self), *final(self), item, amount),
    {
        if amount <= 0 {
            self.effects.push(Effect::Text("Fine, don't buy any then."));
        } else {
            self.buy_quantity(item, amount);
        }
    }
}

} // verus!

