//! The state of the engine.

use vstd::prelude::*;
use crate::key::Key;
use crate::ledger::{LedgerView, TokenLedger};
use crate::market::{Claim, Dividend};
use crate::registry::AssetAccount;
use crate::table::Table;

verus! {

/// The registry, the dividend rounds, the claims and the token ledger.
///
/// `program_id` is the engine's own identity, fixed when the engine is made:
/// every address that the engine derives is derived for it.
///
/// Every operation takes the engine by exclusive reference, so the
/// operations on one engine are served one after another: no purchase sees a
/// free float that another purchase is about to change, and of two claims
/// for the same holder and round the second finds the record of the first.
pub struct Engine {
    pub program_id: Key,
    pub assets: Table<AssetAccount>,
    pub dividends: Table<Dividend>,
    pub claims: Table<Claim>,
    pub ledger: TokenLedger,
}

/// The state of an engine as maps from storage keys to records.
#[verifier::ext_equal]
pub struct EngineView {
    pub program_id: Key,
    pub assets: Map<Key, AssetAccount>,
    pub dividends: Map<Key, Dividend>,
    pub claims: Map<Key, Claim>,
    pub ledger: LedgerView,
}

impl View for Engine {
    type V = EngineView;

    open spec fn view(&self) -> EngineView {
        EngineView {
            program_id: self.program_id,
            assets: self.assets@,
            dividends: self.dividends@,
            claims: self.claims@,
            ledger: self.ledger@,
        }
    }
}

impl EngineView {
    /// The state of an engine with the identity `program_id` and nothing
    /// stored.
    pub open spec fn empty(program_id: Key) -> EngineView {
        EngineView {
            program_id,
            assets: Map::empty(),
            dividends: Map::empty(),
            claims: Map::empty(),
            ledger: LedgerView::empty(),
        }
    }
}

impl Engine {
    /// An engine with the identity `program_id` and nothing stored.
    pub fn new(program_id: Key) -> (e: Engine)
        ensures
            e@ == EngineView::empty(program_id),
    {
        Engine {
            program_id,
            assets: Table::new(),
            dividends: Table::new(),
            claims: Table::new(),
            ledger: TokenLedger::new(),
        }
    }
}

} // verus!
