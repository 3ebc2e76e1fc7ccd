//! The question of a pending repair. A client that is to repair itself at
//! its next start forgets the server it was started on, so the user is
//! asked which of the two goes first.

use crate::key::{KeyCode, KeyInput, KeyKind};
use vstd::prelude::*;

verus! {

/// What the user answers when a repair of the client is pending.
#[derive(Clone, Copy, Debug, PartialEq, Eq, Structural)]
pub enum RepairChoice {
    /// Call the repair off and start the client.
    Launch,
    /// Let the repair go first.
    Repair,
    /// Call the switch off.
    Cancel,
}

/// The answer that a key gives to the question of a pending repair.
pub open spec fn choice_of(key: KeyInput) -> RepairChoice {
    if key.kind == KeyKind::Press && key.code == KeyCode::Char('l') {
        RepairChoice::Launch
    } else if key.kind == KeyKind::Press && key.code == KeyCode::Char('r') {
        RepairChoice::Repair
    } else {
        RepairChoice::Cancel
    }
}

/// Reads the answer to the question of a pending repair from a key: a
/// press of `l` starts the client, a press of `r` lets the repair go
/// first, and any other key calls the switch off.
pub fn repair_choice(key: &KeyInput) -> (r: RepairChoice)
    ensures
        r == choice_of(*key),
{
    match key.kind {
        KeyKind::Press => match key.code {
            KeyCode::Char(c) => {
                if c == 'l' {
                    RepairChoice::Launch
                } else if c == 'r' {
                    RepairChoice::Repair
                } else {
                    RepairChoice::Cancel
                }
            },
            _ => RepairChoice::Cancel,
        },
        _ => RepairChoice::Cancel,
    }
}

} // verus!
