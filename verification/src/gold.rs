//! Buying the gold (XAUT) part of a deposit.
//!
//! The gold part of a deposit is exchanged for XAUT along the path USDC to
//! XAUT through the router's DEX. XAUT is a classic Stellar asset; its
//! token contract is the Stellar Asset Contract whose address the host
//! derives from the XDR of the asset, which this module writes.
use vstd::prelude::*;

use crate::account::AccountId;
use crate::error::RouterError;
use crate::liquidity::{APPROVAL_LEDGERS, SWAP_DEADLINE_SECONDS};
use crate::router::{gold_asset_of, RouterView};

verus! {

/// Why the gold part of a deposit cannot be bought from the router in
/// state `v`, at the ledger with sequence number `sequence` and timestamp
/// `timestamp`; `None` when it can.
pub open spec fn purchase_error(v: RouterView, sequence: u32, timestamp: u64) -> Option<RouterError> {
    if v.soroswap_router is None {
        Some(RouterError::SoroswapNotInitialized)
    } else if v.usdc_token is None {
        Some(RouterError::UsdcNotInitialized)
    } else if sequence + APPROVAL_LEDGERS > u32::MAX {
        Some(RouterError::ArithmeticOverflow)
    } else if timestamp + SWAP_DEADLINE_SECONDS > u64::MAX {
        Some(RouterError::ArithmeticOverflow)
    } else {
        None
    }
}

/// What the router asks of the USDC token and of the DEX router to exchange
/// `usdc_amount` USDC for the gold asset, along the path USDC to XAUT.
pub struct GoldPurchase {
    /// The DEX router, which is approved and then called.
    pub router: AccountId,
    /// The USDC token, the first asset of the path.
    pub usdc_token: AccountId,
    /// The code of the gold asset, the last asset of the path.
    pub gold_asset_code: String,
    /// The issuer of the gold asset.
    pub gold_asset_issuer: String,
    /// The USDC exchanged for gold.
    pub usdc_amount: i128,
    /// The least gold that the exchange must yield.
    pub min_gold_received: i128,
    /// The last ledger at which the approval is valid.
    pub expiration_ledger: u32,
    /// The timestamp after which the exchange lapses.
    pub deadline: u64,
}

impl GoldPurchase {
    /// Whether this is the purchase that the router in state `v` makes for
    /// `usdc_amount` at the ledger `sequence`, `timestamp`.
    pub open spec fn describes(self, v: RouterView, usdc_amount: i128, sequence: u32, timestamp: u64) -> bool {
        &&& Some(self.router@) == v.soroswap_router
        &&& Some(self.usdc_token@) == v.usdc_token
        &&& (self.gold_asset_code@, self.gold_asset_issuer@) == gold_asset_of(v)
        &&& self.usdc_amount == usdc_amount
        &&& self.min_gold_received == 0
        &&& self.expiration_ledger == sequence + APPROVAL_LEDGERS
        &&& self.deadline == timestamp + SWAP_DEADLINE_SECONDS
    }
}

/// `code` followed by zero bytes up to `n` bytes.
pub open spec fn padded(code: Seq<u8>, n: nat) -> Seq<u8> {
    code + Seq::new((n - code.len()) as nat, |i: int| 0u8)
}

/// The XDR of the Stellar `Asset` with code `code` issued by the account
/// whose ed25519 key is `issuer_key`: an asset code of up to four bytes is
/// an `AlphaNum4`, a longer one an `AlphaNum12`, padded with zero bytes.
pub open spec fn asset_xdr(code: Seq<u8>, issuer_key: Seq<u8>) -> Seq<u8> {
    if code.len() <= 4 {
        seq![0u8, 0u8, 0u8, 1u8] + padded(code, 4) + seq![0u8, 0u8, 0u8, 0u8] + issuer_key
    } else {
        seq![0u8, 0u8, 0u8, 2u8] + padded(code, 12) + seq![0u8, 0u8, 0u8, 0u8] + issuer_key
    }
}

/// The XDR of an account address as a contract value, for the account
/// whose ed25519 key is `key`.
pub open spec fn account_address_xdr(key: Seq<u8>) -> Seq<u8> {
    seq![0u8, 0u8, 0u8, 18u8, 0u8, 0u8, 0u8, 0u8, 0u8, 0u8, 0u8, 0u8] + key
}

/// Appends the bytes of `tail` to `out`.
fn append_bytes(out: &mut Vec<u8>, tail: &Vec<u8>)
    ensures
        final(out)@ == old(out)@ + tail@,
{
    let n = tail.len();
    let mut i: usize = 0;
    while i < n
        invariant
            n == tail@.len(),
            i <= n,
            out@ == old(out)@ + tail@.subrange(0, i as int),
        decreases n - i,
    {
        out.push(tail[i]);
        proof {
            assert(tail@.subrange(0, i + 1) =~= tail@.subrange(0, i as int).push(tail@[i as int]));
        }
        i = i + 1;
    }
    assert(tail@.subrange(0, n as int) =~= tail@);
}

/// Appends the four bytes of a big-endian XDR enum discriminant below 256.
fn append_discriminant(out: &mut Vec<u8>, d: u8)
    ensures
        final(out)@ == old(out)@ + seq![0u8, 0u8, 0u8, d],
{
    out.push(0);
    out.push(0);
    out.push(0);
    out.push(d);
    assert(out@ =~= old(out)@ + seq![0u8, 0u8, 0u8, d]);
}

/// The XDR of the Stellar asset with code `code` issued by the account whose
/// ed25519 key is `issuer_key`; `None` unless the code has 1 to 12 bytes and
/// the key 32.
pub fn stellar_asset_xdr(code: &Vec<u8>, issuer_key: &Vec<u8>) -> (r: Option<Vec<u8>>)
    ensures
        r is Some <==> 1 <= code@.len() <= 12 && issuer_key@.len() == 32,
        r matches Some(bytes) ==> bytes@ == asset_xdr(code@, issuer_key@),
{
    if code.len() == 0 || code.len() > 12 || issuer_key.len() != 32 {
        return None;
    }
    let width: usize = if code.len() <= 4 { 4 } else { 12 };
    let mut out: Vec<u8> = Vec::new();
    append_discriminant(&mut out, if code.len() <= 4 { 1 } else { 2 });
    append_bytes(&mut out, code);
    let mut k: usize = code.len();
    let ghost start = out@;
    while k < width
        invariant
            code@.len() <= k <= width,
            out@ == start + Seq::new((k - code@.len()) as nat, |i: int| 0u8),
        decreases width - k,
    {
        out.push(0);
        k = k + 1;
        proof {
            assert(out@ =~= start + Seq::new((k - code@.len()) as nat, |i: int| 0u8));
        }
    }
    append_discriminant(&mut out, 0);
    append_bytes(&mut out, issuer_key);
    proof {
        let w: nat = if code@.len() <= 4 { 4 } else { 12 };
        assert(w == width);
        let d: u8 = if code@.len() <= 4 { 1u8 } else { 2u8 };
        assert(out@ =~= seq![0u8, 0u8, 0u8, d] + padded(code@, w) + seq![0u8, 0u8, 0u8, 0u8] + issuer_key@);
    }
    Some(out)
}

/// The ed25519 key of an account, read from the XDR of its address as a
/// contract value; `None` when `bytes` is not such an XDR.
pub fn account_key_from_address_xdr(bytes: &Vec<u8>) -> (r: Option<Vec<u8>>)
    ensures
        r is Some <==> exists|key: Seq<u8>| key.len() == 32 && bytes@ == #[trigger] account_address_xdr(key),
        r matches Some(key) ==> key@.len() == 32 && bytes@ == account_address_xdr(key@),
{
    let prefix: Vec<u8> = vec![0u8, 0u8, 0u8, 18u8, 0u8, 0u8, 0u8, 0u8, 0u8, 0u8, 0u8, 0u8];
    assert(prefix@ =~= seq![0u8, 0u8, 0u8, 18u8, 0u8, 0u8, 0u8, 0u8, 0u8, 0u8, 0u8, 0u8]);
    if bytes.len() != 44 {
        proof {
            assert forall|key: Seq<u8>| key.len() == 32 implies bytes@ != #[trigger] account_address_xdr(key) by {
                assert(account_address_xdr(key).len() == 44);
            }
        }
        return None;
    }
    let mut i: usize = 0;
    while i < 12
        invariant
            bytes@.len() == 44,
            prefix@ == seq![0u8, 0u8, 0u8, 18u8, 0u8, 0u8, 0u8, 0u8, 0u8, 0u8, 0u8, 0u8],
            i <= 12,
            forall|j: int| 0 <= j < i ==> bytes@[j] == prefix@[j],
        decreases 12 - i,
    {
        if bytes[i] != prefix[i] {
            proof {
                assert forall|key: Seq<u8>| key.len() == 32 implies bytes@ != #[trigger] account_address_xdr(key) by {
                    assert(account_address_xdr(key)[i as int] == prefix@[i as int]);
                }
            }
            return None;
        }
        i = i + 1;
    }
    let mut key: Vec<u8> = Vec::new();
    let mut k: usize = 12;
    while k < 44
        invariant
            bytes@.len() == 44,
            12 <= k <= 44,
            key@ == bytes@.subrange(12, k as int),
        decreases 44 - k,
    {
        key.push(bytes[k]);
        proof {
            assert(bytes@.subrange(12, k + 1) =~= bytes@.subrange(12, k as int).push(bytes@[k as int]));
        }
        k = k + 1;
    }
    assert(bytes@ =~= account_address_xdr(key@));
    Some(key)
}

} // verus!
