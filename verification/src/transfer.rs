//! Application token transfers: the voucher denomination minted on
//! the receiving chain and a bank of balances it is credited to.

use vstd::prelude::*;
use vstd::string::StringExecFns;
use sha2::Digest;
use crate::errors::TransferError;
use crate::identifier::ChannelId;

verus! {

/// The SHA-256 digest of a character string's UTF-8 bytes.
pub uninterp spec fn sha256_of(s: Seq<char>) -> Seq<u8>;

/// Relies on sha2::Sha256::digest: the digest depends on the input
/// alone, and SHA-256 digests are 32 bytes.
#[verifier::external_body]
fn sha256_of_str(s: &str) -> (r: Vec<u8>)
    ensures
        r@ == sha256_of(s@),
        r@.len() == 32,
{
    sha2::Sha256::digest(s.as_bytes()).to_vec()
}

/// The upper-case hexadecimal digit of a value below sixteen.
pub open spec fn hex_digit(n: int) -> char {
    if n == 0 {
        '0'
    } else if n == 1 {
        '1'
    } else if n == 2 {
        '2'
    } else if n == 3 {
        '3'
    } else if n == 4 {
        '4'
    } else if n == 5 {
        '5'
    } else if n == 6 {
        '6'
    } else if n == 7 {
        '7'
    } else if n == 8 {
        '8'
    } else if n == 9 {
        '9'
    } else if n == 10 {
        'A'
    } else if n == 11 {
        'B'
    } else if n == 12 {
        'C'
    } else if n == 13 {
        'D'
    } else if n == 14 {
        'E'
    } else {
        'F'
    }
}

/// Bytes rendered as upper-case hexadecimal, two digits per byte.
pub open spec fn hex_of_bytes(b: Seq<u8>) -> Seq<char>
    decreases b.len(),
{
    if b.len() == 0 {
        Seq::empty()
    } else {
        hex_of_bytes(b.drop_last()) + seq![
            hex_digit(b.last() as int / 16),
            hex_digit(b.last() as int % 16),
        ]
    }
}

/// The one-character string of an upper-case hexadecimal digit.
fn hex_digit_str(n: u8) -> (r: &'static str)
    requires
        n < 16,
    ensures
        r@ == seq![hex_digit(n as int)],
{
    if n == 0 {
        proof {
            reveal_strlit("0");
        }
        "0"
    } else if n == 1 {
        proof {
            reveal_strlit("1");
        }
        "1"
    } else if n == 2 {
        proof {
            reveal_strlit("2");
        }
        "2"
    } else if n == 3 {
        proof {
            reveal_strlit("3");
        }
        "3"
    } else if n == 4 {
        proof {
            reveal_strlit("4");
        }
        "4"
    } else if n == 5 {
        proof {
            reveal_strlit("5");
        }
        "5"
    } else if n == 6 {
        proof {
            reveal_strlit("6");
        }
        "6"
    } else if n == 7 {
        proof {
            reveal_strlit("7");
        }
        "7"
    } else if n == 8 {
        proof {
            reveal_strlit("8");
        }
        "8"
    } else if n == 9 {
        proof {
            reveal_strlit("9");
        }
        "9"
    } else if n == 10 {
        proof {
            reveal_strlit("A");
        }
        "A"
    } else if n == 11 {
        proof {
            reveal_strlit("B");
        }
        "B"
    } else if n == 12 {
        proof {
            reveal_strlit("C");
        }
        "C"
    } else if n == 13 {
        proof {
            reveal_strlit("D");
        }
        "D"
    } else if n == 14 {
        proof {
            reveal_strlit("E");
        }
        "E"
    } else {
        proof {
            reveal_strlit("F");
        }
        "F"
    }
}

/// Renders bytes as upper-case hexadecimal.
pub fn hex_upper(bytes: &Vec<u8>) -> (r: String)
    ensures
        r@ == hex_of_bytes(bytes@),
{
    let mut s = String::new();
    for i in 0..bytes.len()
        invariant
            s@ == hex_of_bytes(bytes@.subrange(0, i as int)),
    {
        let b = bytes[i];
        s.append(hex_digit_str(b / 16));
        s.append(hex_digit_str(b % 16));
        proof {
            assert(bytes@.subrange(0, i + 1 as int).drop_last() =~= bytes@.subrange(0, i as int));
            assert(bytes@.subrange(0, i + 1 as int).last() == bytes@[i as int]);
            assert(s@ =~= hex_of_bytes(bytes@.subrange(0, i + 1 as int)));
        }
    }
    proof {
        assert(bytes@.subrange(0, bytes@.len() as int) =~= bytes@);
    }
    s
}

/// The voucher denomination minted on the receiving chain when a
/// base denomination arrives over the given channel: the hash of the
/// denomination trace, under the voucher prefix.
pub open spec fn spec_voucher_denom(channel: Seq<char>, base: Seq<char>) -> Seq<char> {
    "ibc/"@ + hex_of_bytes(sha256_of("transfer/"@ + channel + "/"@ + base))
}

/// Derives the voucher denomination for a transfer received on
/// `dest_channel`.
pub fn derive_voucher_denom(dest_channel: &ChannelId, base_denom: &str) -> (r: String)
    ensures
        r@ == spec_voucher_denom(dest_channel@, base_denom@),
{
    let mut trace = String::from_str("transfer/");
    trace.append(dest_channel.as_str());
    trace.append("/");
    trace.append(base_denom);
    let digest = sha256_of_str(trace.as_str());
    let hex = hex_upper(&digest);
    let mut out = String::from_str("ibc/");
    out.append(hex.as_str());
    out
}

/// One credited amount: an owner's holding in one denomination.
pub struct BankEntry {
    pub owner: String,
    pub denom: String,
    pub amount: u64,
}

/// The balance the entries sum to for one owner and denomination.
pub open spec fn spec_balance(entries: Seq<BankEntry>, owner: Seq<char>, denom: Seq<char>) -> int
    decreases entries.len(),
{
    if entries.len() == 0 {
        0
    } else {
        spec_balance(entries.drop_last(), owner, denom) + (if entries.last().owner@ == owner
            && entries.last().denom@ == denom {
            entries.last().amount as int
        } else {
            0
        })
    }
}

/// A prefix of the entries never sums above the whole.
proof fn lemma_balance_prefix(entries: Seq<BankEntry>, k: int, owner: Seq<char>, denom: Seq<char>)
    requires
        0 <= k <= entries.len(),
    ensures
        spec_balance(entries.subrange(0, k), owner, denom) <= spec_balance(entries, owner, denom),
    decreases entries.len() - k,
{
    if k == entries.len() {
        assert(entries.subrange(0, k) =~= entries);
    } else {
        lemma_balance_prefix(entries, k + 1, owner, denom);
        assert(entries.subrange(0, k + 1).drop_last() =~= entries.subrange(0, k));
        assert(entries.subrange(0, k + 1).last() == entries[k]);
    }
}

/// The balances one chain's bank module holds.
pub struct Bank {
    pub entries: Vec<BankEntry>,
}

impl Bank {
    /// Well-formedness: every balance still fits the machine word.
    pub open spec fn wf(&self) -> bool {
        forall|o: Seq<char>, d: Seq<char>| #[trigger] spec_balance(self.entries@, o, d) <= u64::MAX
    }

    /// An empty bank.
    pub fn new() -> (r: Bank)
        ensures
            r.entries@.len() == 0,
            r.wf(),
    {
        Bank { entries: Vec::new() }
    }

    /// The balance held for an owner in a denomination.
    pub fn balance_of(&self, owner: &String, denom: &String) -> (r: u64)
        requires
            self.wf(),
        ensures
            r == spec_balance(self.entries@, owner@, denom@),
    {
        let mut acc: u64 = 0;
        let n = self.entries.len();
        for i in 0..n
            invariant
                self.wf(),
                n == self.entries@.len(),
                acc == spec_balance(self.entries@.subrange(0, i as int), owner@, denom@),
        {
            proof {
                lemma_balance_prefix(self.entries@, i + 1 as int, owner@, denom@);
                assert(self.entries@.subrange(0, i + 1 as int).drop_last() =~= self.entries@
                    .subrange(0, i as int));
                assert(self.entries@.subrange(0, i + 1 as int).last() == self.entries@[i as int]);
            }
            let e = &self.entries[i];
            if e.owner == *owner && e.denom == *denom {
                acc = acc + e.amount;
            }
        }
        proof {
            assert(self.entries@.subrange(0, n as int) =~= self.entries@);
        }
        acc
    }

    /// Credits an amount, unless the balance would no longer fit; a
    /// refused credit leaves every balance unchanged.
    pub fn credit(&mut self, owner: String, denom: String, amount: u64) -> (r: Result<
        (),
        TransferError,
    >)
        requires
            old(self).wf(),
        ensures
            final(self).wf(),
            r is Ok <==> spec_balance(old(self).entries@, owner@, denom@) + amount <= u64::MAX,
            r is Err ==> r == Result::<(), TransferError>::Err(TransferError::BalanceOverflow)
                && final(self).entries@ == old(self).entries@,
            r is Ok ==> forall|o: Seq<char>, d: Seq<char>|
                #[trigger] spec_balance(final(self).entries@, o, d) == spec_balance(
                    old(self).entries@,
                    o,
                    d,
                ) + (if o == owner@ && d == denom@ {
                    amount as int
                } else {
                    0
                }),
    {
        let cur = self.balance_of(&owner, &denom);
        if amount > u64::MAX - cur {
            return Err(TransferError::BalanceOverflow);
        }
        let ghost entries0 = self.entries@;
        let entry = BankEntry { owner, denom, amount };
        self.entries.push(entry);
        proof {
            assert forall|o: Seq<char>, d: Seq<char>|
                #[trigger] spec_balance(self.entries@, o, d) == spec_balance(entries0, o, d) + (
                if o == owner@ && d == denom@ {
                    amount as int
                } else {
                    0
                }) by {
                assert(self.entries@.drop_last() =~= entries0);
            }
        }
        Ok(())
    }

    /// Applies a received transfer: the voucher denomination for the
    /// arriving base denomination is derived and the receiver is
    /// credited. Succeeds exactly when the credited balance still
    /// fits.
    pub fn receive_transfer(
        &mut self,
        receiver: String,
        base_denom: &str,
        amount: u64,
        dest_channel: &ChannelId,
    ) -> (r: Result<String, TransferError>)
        requires
            old(self).wf(),
        ensures
            final(self).wf(),
            r is Ok <==> spec_balance(
                old(self).entries@,
                receiver@,
                spec_voucher_denom(dest_channel@, base_denom@),
            ) + amount <= u64::MAX,
            r matches Ok(d) ==> d@ == spec_voucher_denom(dest_channel@, base_denom@) && (forall|
                o: Seq<char>,
                dn: Seq<char>,
            |
                #[trigger] spec_balance(final(self).entries@, o, dn) == spec_balance(
                    old(self).entries@,
                    o,
                    dn,
                ) + (if o == receiver@ && dn == spec_voucher_denom(dest_channel@, base_denom@) {
                    amount as int
                } else {
                    0
                })),
            r is Err ==> final(self).entries@ == old(self).entries@,
    {
        let voucher = derive_voucher_denom(dest_channel, base_denom);
        let voucher_copy = voucher.clone();
        match self.credit(receiver, voucher, amount) {
            Ok(_) => Ok(voucher_copy),
            Err(e) => Err(e),
        }
    }
}

} // verus!
