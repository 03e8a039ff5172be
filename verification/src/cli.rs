//! The commands of the front end: their names, and which of them a word
//! names.

use crate::gm::GM;
use vstd::prelude::*;
use vstd::string::*;

verus! {

/// A command.
#[derive(Hash, Eq, PartialEq, Debug, Clone, Copy, Structural)]
pub enum CmdName {
    Help,
    Target,
    Scan,
    Jump,
    JumpMan,
    JumpCheckMan,
    JumpCheck,
    JumpRel,
    JumpCheckRel,
    Entities,
    Cargo,
    Buy,
    Sell,
    DockList,
    Dock,
    Undock,
    Refuel,
    Name,
    Time,
    Save,
    Load,
    Quit,
}

/// How many commands there are.
pub const CMD_COUNT: usize = 22;

/// What is shown of a command: its full name, its short name, its
/// parameters (a question mark behind an optional one) and what it does.
#[derive(Debug, Clone, Copy)]
pub struct CmdMeta {
    pub full: &'static str,
    pub short: &'static str,
    pub params: &'static str,
    pub desc: &'static str,
}

impl CmdName {
    /// The place of a command in the order of the table.
    pub open spec fn ord(self) -> int {
        match self {
            CmdName::Help => 0,
            CmdName::Target => 1,
            CmdName::Scan => 2,
            CmdName::Jump => 3,
            CmdName::JumpMan => 4,
            CmdName::JumpCheckMan => 5,
            CmdName::JumpCheck => 6,
            CmdName::JumpRel => 7,
            CmdName::JumpCheckRel => 8,
            CmdName::Entities => 9,
            CmdName::Cargo => 10,
            CmdName::Buy => 11,
            CmdName::Sell => 12,
            CmdName::DockList => 13,
            CmdName::Dock => 14,
            CmdName::Undock => 15,
            CmdName::Refuel => 16,
            CmdName::Name => 17,
            CmdName::Time => 18,
            CmdName::Save => 19,
            CmdName::Load => 20,
            CmdName::Quit => 21,
        }
    }

    /// The command at a place of the table.
    pub open spec fn at(i: int) -> CmdName {
        if i == 0 {
            CmdName::Help
        } else if i == 1 {
            CmdName::Target
        } else if i == 2 {
            CmdName::Scan
        } else if i == 3 {
            CmdName::Jump
        } else if i == 4 {
            CmdName::JumpMan
        } else if i == 5 {
            CmdName::JumpCheckMan
        } else if i == 6 {
            CmdName::JumpCheck
        } else if i == 7 {
            CmdName::JumpRel
        } else if i == 8 {
            CmdName::JumpCheckRel
        } else if i == 9 {
            CmdName::Entities
        } else if i == 10 {
            CmdName::Cargo
        } else if i == 11 {
            CmdName::Buy
        } else if i == 12 {
            CmdName::Sell
        } else if i == 13 {
            CmdName::DockList
        } else if i == 14 {
            CmdName::Dock
        } else if i == 15 {
            CmdName::Undock
        } else if i == 16 {
            CmdName::Refuel
        } else if i == 17 {
            CmdName::Name
        } else if i == 18 {
            CmdName::Time
        } else if i == 19 {
            CmdName::Save
        } else if i == 20 {
            CmdName::Load
        } else {
            CmdName::Quit
        }
    }

    /// The full name of a command.
    pub open spec fn full_text(self) -> Seq<char> {
        match self {
            CmdName::Help => "help"@,
            CmdName::Target => "target"@,
            CmdName::Scan => "scan"@,
            CmdName::Jump => "jump"@,
            CmdName::JumpMan => "jump_man"@,
            CmdName::JumpCheckMan => "jump_check_man"@,
            CmdName::JumpCheck => "jump_check"@,
            CmdName::JumpRel => "jump_rel"@,
            CmdName::JumpCheckRel => "jump_check_rel"@,
            CmdName::Entities => "entities"@,
            CmdName::Cargo => "cargo"@,
            CmdName::Buy => "buy"@,
            CmdName::Sell => "sell"@,
            CmdName::DockList => "dock_list"@,
            CmdName::Dock => "dock"@,
            CmdName::Undock => "undock"@,
            CmdName::Refuel => "refuel"@,
            CmdName::Name => "name"@,
            CmdName::Time => "time"@,
            CmdName::Save => "save"@,
            CmdName::Load => "load"@,
            CmdName::Quit => "quit"@,
        }
    }

    /// The short name of a command.
    pub open spec fn short_text(self) -> Seq<char> {
        match self {
            CmdName::Help => "h"@,
            CmdName::Target => "t"@,
            CmdName::Scan => "s"@,
            CmdName::Jump => "j"@,
            CmdName::JumpMan => "jm"@,
            CmdName::JumpCheckMan => "jcm"@,
            CmdName::JumpCheck => "jc"@,
            CmdName::JumpRel => "jr"@,
            CmdName::JumpCheckRel => "jcr"@,
            CmdName::Entities => "l"@,
            CmdName::Cargo => "c"@,
            CmdName::Buy => "b"@,
            CmdName::Sell => "sl"@,
            CmdName::DockList => "dl"@,
            CmdName::Dock => "d"@,
            CmdName::Undock => "ud"@,
            CmdName::Refuel => "rf"@,
            CmdName::Name => "n"@,
            CmdName::Time => "ti"@,
            CmdName::Save => "sv"@,
            CmdName::Load => "ld"@,
            CmdName::Quit => "q"@,
        }
    }

    /// The parameters of a command.
    pub open spec fn params_text(self) -> Seq<char> {
        match self {
            CmdName::Help => ""@,
            CmdName::Target => "ent_id?"@,
            CmdName::Scan => "ent_id?"@,
            CmdName::Jump => "ent_id"@,
            CmdName::JumpMan => "x y"@,
            CmdName::JumpCheckMan => "x y"@,
            CmdName::JumpCheck => "ent_id"@,
            CmdName::JumpRel => "x y"@,
            CmdName::JumpCheckRel => "x y"@,
            CmdName::Entities => "dist"@,
            CmdName::Cargo => "ent_id?"@,
            CmdName::Buy => "ent_id item qty"@,
            CmdName::Sell => "ent_id item qty"@,
            CmdName::DockList => ""@,
            CmdName::Dock => "ent_id"@,
            CmdName::Undock => ""@,
            CmdName::Refuel => ""@,
            CmdName::Name => ""@,
            CmdName::Time => ""@,
            CmdName::Save => "file"@,
            CmdName::Load => "file"@,
            CmdName::Quit => ""@,
        }
    }

    /// What a command does.
    pub open spec fn desc_text(self) -> Seq<char> {
        match self {
            CmdName::Help => "Show this help message."@,
            CmdName::Target => "Set or view current target entity by ID."@,
            CmdName::Scan => "Scan an entity by ID or self if no ID provided."@,
            CmdName::Jump => "Jump to target entity by ID."@,
            CmdName::JumpMan => "Jump to specified coordinates."@,
            CmdName::JumpCheckMan => "Check jump feasibility to specified coordinates."@,
            CmdName::JumpCheck => "Check jump feasibility to target entity by ID."@,
            CmdName::JumpRel => "Jump to coordinates relative to current position."@,
            CmdName::JumpCheckRel => "Check jump feasibility to coordinates relative to current position."@,
            CmdName::Entities => "List entities within jump range."@,
            CmdName::Cargo => "View cargo hold contents."@,
            CmdName::Buy => "Buy specified quantity of an item."@,
            CmdName::Sell => "Sell specified quantity of an item."@,
            CmdName::DockList => "List nearby docking-capable entities."@,
            CmdName::Dock => "Dock with a specified entity by ID."@,
            CmdName::Undock => "Undock from the currently docked entity."@,
            CmdName::Refuel => "Refuel the ship's jump drive while docked."@,
            CmdName::Name => "Rename the player's ship."@,
            CmdName::Time => "Show the current game time (tick)."@,
            CmdName::Save => "Save the current game state to a file."@,
            CmdName::Load => "Load a game state from a file."@,
            CmdName::Quit => "Exit the game."@,
        }
    }

    /// The place of this command in the order of the table.
    pub fn index(&self) -> (i: usize)
        ensures
            i == self.ord(),
            i < CMD_COUNT,
    {
        match self {
            CmdName::Help => 0,
            CmdName::Target => 1,
            CmdName::Scan => 2,
            CmdName::Jump => 3,
            CmdName::JumpMan => 4,
            CmdName::JumpCheckMan => 5,
            CmdName::JumpCheck => 6,
            CmdName::JumpRel => 7,
            CmdName::JumpCheckRel => 8,
            CmdName::Entities => 9,
            CmdName::Cargo => 10,
            CmdName::Buy => 11,
            CmdName::Sell => 12,
            CmdName::DockList => 13,
            CmdName::Dock => 14,
            CmdName::Undock => 15,
            CmdName::Refuel => 16,
            CmdName::Name => 17,
            CmdName::Time => 18,
            CmdName::Save => 19,
            CmdName::Load => 20,
            CmdName::Quit => 21,
        }
    }

    /// The command at place `i` of the table.
    pub fn from_index(i: usize) -> (name: CmdName)
        requires
            i < CMD_COUNT,
        ensures
            name == CmdName::at(i as int),
            name.ord() == i,
    {
        if i == 0 {
            CmdName::Help
        } else if i == 1 {
            CmdName::Target
        } else if i == 2 {
            CmdName::Scan
        } else if i == 3 {
            CmdName::Jump
        } else if i == 4 {
            CmdName::JumpMan
        } else if i == 5 {
            CmdName::JumpCheckMan
        } else if i == 6 {
            CmdName::JumpCheck
        } else if i == 7 {
            CmdName::JumpRel
        } else if i == 8 {
            CmdName::JumpCheckRel
        } else if i == 9 {
            CmdName::Entities
        } else if i == 10 {
            CmdName::Cargo
        } else if i == 11 {
            CmdName::Buy
        } else if i == 12 {
            CmdName::Sell
        } else if i == 13 {
            CmdName::DockList
        } else if i == 14 {
            CmdName::Dock
        } else if i == 15 {
            CmdName::Undock
        } else if i == 16 {
            CmdName::Refuel
        } else if i == 17 {
            CmdName::Name
        } else if i == 18 {
            CmdName::Time
        } else if i == 19 {
            CmdName::Save
        } else if i == 20 {
            CmdName::Load
        } else {
            CmdName::Quit
        }
    }

    /// What is shown of this command.
    pub fn meta(&self) -> (meta: CmdMeta)
        ensures
            meta.describes(*self),
    {
        match self {
            CmdName::Help => CmdMeta {
                full: "help",
                short: "h",
                params: "",
                desc: "Show this help message.",
            },
            CmdName::Target => CmdMeta {
                full: "target",
                short: "t",
                params: "ent_id?",
                desc: "Set or view current target entity by ID.",
            },
            CmdName::Scan => CmdMeta {
                full: "scan",
                short: "s",
                params: "ent_id?",
                desc: "Scan an entity by ID or self if no ID provided.",
            },
            CmdName::Jump => CmdMeta {
                full: "jump",
                short: "j",
                params: "ent_id",
                desc: "Jump to target entity by ID.",
            },
            CmdName::JumpMan => CmdMeta {
                full: "jump_man",
                short: "jm",
                params: "x y",
                desc: "Jump to specified coordinates.",
            },
            CmdName::JumpCheckMan => CmdMeta {
                full: "jump_check_man",
                short: "jcm",
                params: "x y",
                desc: "Check jump feasibility to specified coordinates.",
            },
            CmdName::JumpCheck => CmdMeta {
                full: "jump_check",
                short: "jc",
                params: "ent_id",
                desc: "Check jump feasibility to target entity by ID.",
            },
            CmdName::JumpRel => CmdMeta {
                full: "jump_rel",
                short: "jr",
                params: "x y",
                desc: "Jump to coordinates relative to current position.",
            },
            CmdName::JumpCheckRel => CmdMeta {
                full: "jump_check_rel",
                short: "jcr",
                params: "x y",
                desc: "Check jump feasibility to coordinates relative to current position.",
            },
            CmdName::Entities => CmdMeta {
                full: "entities",
                short: "l",
                params: "dist",
                desc: "List entities within jump range.",
            },
            CmdName::Cargo => CmdMeta {
                full: "cargo",
                short: "c",
                params: "ent_id?",
                desc: "View cargo hold contents.",
            },
            CmdName::Buy => CmdMeta {
                full: "buy",
                short: "b",
                params: "ent_id item qty",
                desc: "Buy specified quantity of an item.",
            },
            CmdName::Sell => CmdMeta {
                full: "sell",
                short: "sl",
                params: "ent_id item qty",
                desc: "Sell specified quantity of an item.",
            },
            CmdName::DockList => CmdMeta {
                full: "dock_list",
                short: "dl",
                params: "",
                desc: "List nearby docking-capable entities.",
            },
            CmdName::Dock => CmdMeta {
                full: "dock",
                short: "d",
                params: "ent_id",
                desc: "Dock with a specified entity by ID.",
            },
            CmdName::Undock => CmdMeta {
                full: "undock",
                short: "ud",
                params: "",
                desc: "Undock from the currently docked entity.",
            },
            CmdName::Refuel => CmdMeta {
                full: "refuel",
                short: "rf",
                params: "",
                desc: "Refuel the ship's jump drive while docked.",
            },
            CmdName::Name => CmdMeta {
                full: "name",
                short: "n",
                params: "",
                desc: "Rename the player's ship.",
            },
            CmdName::Time => CmdMeta {
                full: "time",
                short: "ti",
                params: "",
                desc: "Show the current game time (tick).",
            },
            CmdName::Save => CmdMeta {
                full: "save",
                short: "sv",
                params: "file",
                desc: "Save the current game state to a file.",
            },
            CmdName::Load => CmdMeta {
                full: "load",
                short: "ld",
                params: "file",
                desc: "Load a game state from a file.",
            },
            CmdName::Quit => CmdMeta {
                full: "quit",
                short: "q",
                params: "",
                desc: "Exit the game.",
            },
        }
    }
}

impl CmdMeta {
    /// This record is the table entry of `name`.
    pub open spec fn describes(&self, name: CmdName) -> bool {
        &&& self.full@ == name.full_text()
        &&& self.short@ == name.short_text()
        &&& self.params@ == name.params_text()
        &&& self.desc@ == name.desc_text()
    }
}

/// The word `v` names the command `target`: it is its full or its short name.
pub open spec fn names_cmd(v: Seq<char>, target: CmdName) -> bool {
    v == target.full_text() || v == target.short_text()
}

/// The table of the commands, in the order of `CmdName`.
#[derive(Debug)]
pub struct CmdTable(Vec<CmdMeta>);

impl CmdTable {
    #[verifier::type_invariant]
    spec fn complete(self) -> bool {
        &&& self.0@.len() == CMD_COUNT
        &&& forall|i: int| 0 <= i < CMD_COUNT ==> (#[trigger] self.0@[i]).describes(CmdName::at(i))
    }

    /// The entry that the table holds for `name`.
    pub closed spec fn entry(&self, name: CmdName) -> CmdMeta {
        self.0@[name.ord()]
    }

    /// Builds the table.
    pub fn new() -> (table: CmdTable)
        ensures
            forall|name: CmdName| (#[trigger] table.entry(name)).describes(name),
    {
        let mut entries: Vec<CmdMeta> = Vec::new();
        let mut i: usize = 0;
        while i < CMD_COUNT
            invariant
                i <= CMD_COUNT,
                entries@.len() == i,
                forall|j: int| 0 <= j < i ==> (#[trigger] entries@[j]).describes(CmdName::at(j)),
            decreases CMD_COUNT - i,
        {
            entries.push(CmdName::from_index(i).meta());
            i += 1;
        }
        proof {
            assert forall|name: CmdName| (#[trigger] entries@[name.ord()]).describes(name) by {
                assert(CmdName::at(name.ord()) == name);
            }
        }
        CmdTable(entries)
    }

    /// The entry of `name`.
    pub fn get(&self, name: &CmdName) -> (found: Option<&CmdMeta>)
        ensures
            found == Some(&self.entry(*name)),
            self.entry(*name).describes(*name),
    {
        proof {
            use_type_invariant(self);
        }
        let i = name.index();
        assert(CmdName::at(i as int) == *name);
        Some(&self.0[i])
    }

    /// Every entry, in the order of the table.
    pub fn entries(&self) -> (all: &Vec<CmdMeta>)
        ensures
            all@.len() == CMD_COUNT,
            forall|i: int| 0 <= i < CMD_COUNT ==> (#[trigger] all@[i]) == self.entry(CmdName::at(i)),
            forall|i: int| 0 <= i < CMD_COUNT ==> (#[trigger] all@[i]).describes(CmdName::at(i)),
    {
        proof {
            use_type_invariant(self);
        }
        &self.0
    }
}

/// The state of the front end: the id last used, the table of the commands,
/// and the galaxy manager.
#[derive(Debug)]
pub struct CLI {
    pub last_id: i32,
    pub meta: CmdTable,
    pub gm: GM,
}

impl CLI {
    /// A front end that has used no id and seen no jump.
    pub fn new() -> (cli: CLI)
        ensures
            cli.last_id == 0,
            cli.gm.tick == 0,
    {
        CLI { last_id: 0, meta: CmdTable::new(), gm: GM::new() }
    }

    /// Whether the word `v` names the command `target`.
    pub fn check_cmd(&self, v: &str, target: CmdName) -> (named: bool)
        ensures
            named == names_cmd(v@, target),
    {
        let word = String::from_str(v);
        match self.meta.get(&target) {
            Some(cmd) => word == String::from_str(cmd.full) || word == String::from_str(cmd.short),
            None => false,
        }
    }

    /// The first command of the table that the word `v` names.
    pub fn find_cmd(&self, v: &str) -> (found: Option<CmdName>)
        ensures
            match found {
                Some(name) => names_cmd(v@, name) && forall|i: int|
                    0 <= i < name.ord() ==> !names_cmd(v@, CmdName::at(i)),
                None => forall|i: int| 0 <= i < CMD_COUNT ==> !names_cmd(v@, CmdName::at(i)),
            },
    {
        let mut i: usize = 0;
        while i < CMD_COUNT
            invariant
                i <= CMD_COUNT,
                forall|j: int| 0 <= j < i ==> !names_cmd(v@, CmdName::at(j)),
            decreases CMD_COUNT - i,
        {
            let name = CmdName::from_index(i);
            if self.check_cmd(v, name) {
                return Some(name);
            }
            i += 1;
        }
        None
    }
}

} // verus!
