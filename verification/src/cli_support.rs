//! The rules of the command-line client that do not touch the node, the
//! terminal or the disk: the outputs of a send-to-many command, the labels
//! and file names of off-chain UTXO transfers, and how a claim is read.
use vstd::prelude::*;

use crate::text::{chars_of, push_decimal, push_str, decimal};

verus! {

/// The information about a receiving address that a UTXO transfer file
/// records.
#[derive(Debug, Clone)]
pub enum AddressEnum {
    Generation { address_abbrev: String, address: String },
    Symmetric { privacy_digest: String, receiver_identifier: String },
}

/// The short identifier of an address: the abbreviation of a generation
/// address, the receiver identifier of a symmetric one.
pub open spec fn short_id_spec(a: AddressEnum) -> Seq<char> {
    match a {
        AddressEnum::Generation { address_abbrev, .. } => address_abbrev@,
        AddressEnum::Symmetric { receiver_identifier, .. } => receiver_identifier@,
    }
}

impl AddressEnum {
    /// The short identifier of the address (see [`short_id_spec`]).
    pub fn short_id(&self) -> (r: &str)
        ensures
            r@ == short_id_spec(*self),
    {
        match self {
            AddressEnum::Generation { address_abbrev, .. } => address_abbrev.as_str(),
            AddressEnum::Symmetric { receiver_identifier, .. } => receiver_identifier.as_str(),
        }
    }
}

/// The content of a UTXO transfer file.
#[derive(Debug, Clone)]
pub struct UtxoTransferEntry {
    pub data_format: String,
    pub recipient: String,
    pub amount: String,
    pub utxo_transfer_encrypted: String,
    pub address_info: AddressEnum,
}

/// The format tag of UTXO transfer files.
pub open spec fn utxo_transfer_format() -> Seq<char> {
    "neptune-utxo-transfer-v1.0"@
}

impl UtxoTransferEntry {
    /// The format tag that every UTXO transfer file carries.
    pub fn data_format() -> (r: String)
        ensures
            r@ == utxo_transfer_format(),
    {
        "neptune-utxo-transfer-v1.0".to_owned()
    }
}

/// How a UTXO claim is read.
#[derive(Debug, Clone)]
pub enum ClaimFormat {
    /// the encrypted UTXO transfer itself; read from stdin if not present
    Raw { raw: Option<String> },
    /// the JSON content of a UTXO transfer file; read from stdin if not
    /// present
    Json { json: Option<String> },
    /// a UTXO transfer file, by its path
    File { path: String },
}

/// The recipient label an output is filed under: an output to the wallet
/// itself that names no recipient is filed under `self`; any other keeps its
/// label.
pub open spec fn recipient_label_spec(self_owned: bool, recipient: Seq<char>) -> Seq<char> {
    if self_owned && recipient == "anonymous"@ {
        "self"@
    } else {
        recipient
    }
}

/// The recipient label of an output (see [`recipient_label_spec`]).
pub fn recipient_label(self_owned: bool, recipient: String) -> (r: String)
    ensures
        r@ == recipient_label_spec(self_owned, recipient@),
{
    if self_owned && crate::text::chars_equal(&chars_of(recipient.as_str()), &chars_of("anonymous")) {
        proof {
            reveal_strlit("self");
        }
        "self".to_owned()
    } else {
        recipient
    }
}

/// The name of the file for a UTXO transfer at the `attempt`-th try (from
/// 0): first `<short id>-<amount>.json`, then `<recipient>-<amount>.<n>.json`
/// for the n-th retry, until a free name turns up.
pub open spec fn transfer_file_name_spec(short_id: Seq<char>, recipient: Seq<char>, amount: Seq<char>, attempt: nat) -> Seq<char> {
    if attempt == 0 {
        short_id + "-"@ + amount + ".json"@
    } else {
        recipient + "-"@ + amount + "."@ + decimal(attempt) + ".json"@
    }
}

/// The name of the file for a UTXO transfer at the `attempt`-th try (see
/// [`transfer_file_name_spec`]).
pub fn transfer_file_name(short_id: &str, recipient: &str, amount: &str, attempt: u64) -> (r: String)
    ensures
        r@ == transfer_file_name_spec(short_id@, recipient@, amount@, attempt as nat),
{
    if attempt == 0 {
        let mut s = short_id.to_owned();
        push_str(&mut s, "-");
        push_str(&mut s, amount);
        push_str(&mut s, ".json");
        s
    } else {
        let mut s = recipient.to_owned();
        push_str(&mut s, "-");
        push_str(&mut s, amount);
        push_str(&mut s, ".");
        push_decimal(&mut s, attempt as u128);
        push_str(&mut s, ".json");
        s
    }
}

/// An output of a send-to-many command: the address, the amount as text, and
/// the recipient label.
#[derive(Debug, Clone)]
pub struct TransactionOutputText {
    pub address: String,
    pub amount: String,
    pub recipient: String,
}

/// The output is not of the form `address:amount` or
/// `address:amount:recipient`.
#[derive(Debug, Clone, Copy, PartialEq, Eq, Structural)]
pub struct MissingColon;

/// The pieces of `s` between the colons, in order (one piece when there is
/// no colon).
pub open spec fn split_colons(s: Seq<char>) -> Seq<Seq<char>>
    decreases s.len(),
{
    if s.len() == 0 {
        seq![Seq::empty()]
    } else {
        let rest = split_colons(s.drop_last());
        if s.last() == ':' {
            rest.push(Seq::empty())
        } else {
            rest.update(rest.len() - 1, rest.last().push(s.last()))
        }
    }
}

/// The output that the text of a send-to-many argument stands for: two
/// or three colon-separated fields, the recipient `anonymous` when there is
/// no third field.
pub open spec fn parse_output_spec(s: Seq<char>) -> Result<(Seq<char>, Seq<char>, Seq<char>), MissingColon> {
    let parts = split_colons(s);
    if parts.len() != 2 && parts.len() != 3 {
        Err(MissingColon)
    } else {
        Ok((parts[0], parts[1], if parts.len() == 3 { parts[2] } else { "anonymous"@ }))
    }
}

/// Splits the characters `v` at each colon (see [`split_colons`]).
fn split_at_colons(v: &Vec<char>) -> (r: Vec<Vec<char>>)
    ensures
        r@.len() == split_colons(v@).len(),
        forall|i: int| 0 <= i < r@.len() ==> #[trigger] r@[i]@ == split_colons(v@)[i],
{
    let mut parts: Vec<Vec<char>> = Vec::new();
    parts.push(Vec::new());
    let mut i: usize = 0;
    while i < v.len()
        invariant
            i <= v.len(),
            parts@.len() == split_colons(v@.take(i as int)).len(),
            parts@.len() >= 1,
            forall|k: int| 0 <= k < parts@.len() ==> #[trigger] parts@[k]@ == split_colons(v@.take(i as int))[k],
        decreases v.len() - i,
    {
        let ghost before = parts@;
        let ghost t = v@.take(i + 1);
        assert(t.drop_last() =~= v@.take(i as int));
        assert(t.last() == v@[i as int]);
        if v[i] == ':' {
            parts.push(Vec::new());
            assert forall|k: int| 0 <= k < parts@.len() implies #[trigger] parts@[k]@ == split_colons(t)[k] by {
                if k < before.len() {
                    assert(parts@[k] == before[k]);
                }
            }
        } else {
            let last = parts.len() - 1;
            let mut piece = parts.pop().unwrap();
            piece.push(v[i]);
            parts.push(piece);
            assert forall|k: int| 0 <= k < parts@.len() implies #[trigger] parts@[k]@ == split_colons(t)[k] by {
                if k < last {
                    assert(parts@[k] == before[k]);
                }
            }
        }
        i = i + 1;
    }
    assert(v@.take(v@.len() as int) =~= v@);
    parts
}

/// The string of the characters `v`.
fn string_of(v: &Vec<char>) -> (r: String)
    ensures
        r@ == v@,
{
    let mut s = String::new();
    let mut i: usize = 0;
    while i < v.len()
        invariant
            i <= v.len(),
            s@ == v@.take(i as int),
        decreases v.len() - i,
    {
        crate::text::push_char(&mut s, v[i]);
        assert(v@.take(i + 1) =~= v@.take(i as int).push(v@[i as int]));
        i = i + 1;
    }
    assert(v@.take(v@.len() as int) =~= v@);
    s
}

impl TransactionOutputText {
    /// parses `address:amount:recipient` or `address:amount` (see
    /// [`parse_output_spec`]); the amount stays text.
    pub fn parse(s: &str) -> (r: Result<Self, MissingColon>)
        ensures
            match (r, parse_output_spec(s@)) {
                (Ok(o), Ok((a, m, p))) => o.address@ == a && o.amount@ == m && o.recipient@ == p,
                (Err(e), Err(f)) => e == f,
                _ => false,
            },
    {
        let v = chars_of(s);
        let parts = split_at_colons(&v);
        if parts.len() != 2 && parts.len() != 3 {
            return Err(MissingColon);
        }
        let address = string_of(&parts[0]);
        let amount = string_of(&parts[1]);
        let recipient = if parts.len() == 3 {
            string_of(&parts[2])
        } else {
            proof {
                reveal_strlit("anonymous");
            }
            "anonymous".to_owned()
        };
        Ok(TransactionOutputText { address, amount, recipient })
    }
}

} // verus!
