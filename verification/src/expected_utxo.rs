//! Who told the wallet about an expected UTXO.
use vstd::prelude::*;

verus! {

/// The party that notified the wallet of an expected UTXO.
#[derive(Debug, Clone, Copy, PartialEq, Eq, Structural, Hash)]
pub enum UtxoNotifier {
    OwnMiner,
    Cli,
    Myself,
    Premine,
}

} // verus!
