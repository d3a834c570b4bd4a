use vstd::prelude::*;

use crate::errors::WalletError;
use crate::keys::{scalar_valid, KeyServices, PrivateKey};

verus! {

/// Deployment-wide share count: every key is split into this many shares.
/// Fixed before the first account is created; changing it later makes
/// previously split keys unreconstructable.
pub const SHARE_COUNT: u8 = 3;

/// Deployment-wide reconstruction threshold: how many shares are needed.
pub const SHARE_THRESHOLD: u8 = 3;

/// One share of a split key. `index` is the share's evaluation point,
/// nonzero and unique within its set; `payload` pairs that point with one
/// value byte per secret byte.
#[derive(Clone)]
pub struct SecretShare {
    pub index: u8,
    pub payload: Vec<(u8, u8)>,
}

impl SecretShare {
    /// Well-formed for a secret of `secret_len` bytes: a nonzero point, one
    /// pair per secret byte, every pair carrying the share's own point.
    pub open spec fn wf(&self, secret_len: int) -> bool {
        &&& self.index != 0
        &&& self.payload@.len() == secret_len
        &&& forall|j: int|
            0 <= j < self.payload@.len() ==> (#[trigger] self.payload@[j]).0 == self.index
    }
}

/// The pair sequences of a list of shares, in order.
pub open spec fn payload_seqs(shares: Seq<SecretShare>) -> Seq<Seq<(u8, u8)>> {
    shares.map_values(|s: SecretShare| s.payload@)
}

/// The pair sequences of a list of raw share vectors, in order.
pub open spec fn pair_seqs(shares: Seq<Vec<(u8, u8)>>) -> Seq<Seq<(u8, u8)>> {
    shares.map_values(|v: Vec<(u8, u8)>| v@)
}

/// What the threshold scheme's Lagrange reconstruction returns for a list
/// of equal-length share pair sequences: a pure function of the pairs alone.
pub uninterp spec fn recombined(share_lists: Seq<Seq<(u8, u8)>>) -> Seq<u8>;

/// `sel` lists pairwise-distinct entries of `shares`, chosen by the index
/// map `idx`, in any order.
pub open spec fn selection_of(
    sel: Seq<Seq<(u8, u8)>>,
    shares: Seq<Seq<(u8, u8)>>,
    idx: Seq<int>,
) -> bool {
    &&& idx.len() == sel.len()
    &&& forall|i: int|
        0 <= i < idx.len() ==> 0 <= #[trigger] idx[i] < shares.len() && sel[i] == shares[idx[i]]
    &&& forall|i: int, j: int| 0 <= i < j < idx.len() ==> idx[i] != idx[j]
}

/// What a successful split of `secret` into `n` shares with the given
/// threshold guarantees: exactly `n` shares, each as long as the secret,
/// each with a consistent nonzero evaluation point distinct from every
/// other share's, and every selection of at least `threshold` distinct
/// shares recombining to the secret.
pub open spec fn split_post(
    secret: Seq<u8>,
    shares: Seq<Seq<(u8, u8)>>,
    n: u8,
    threshold: u8,
) -> bool {
    &&& shares.len() == n as int
    &&& forall|i: int| 0 <= i < shares.len() ==> (#[trigger] shares[i]).len() == secret.len()
    &&& forall|i: int, j: int|
        0 <= i < shares.len() && 0 <= j < shares[i].len() ==> (#[trigger] shares[i][j]).0
            == shares[i][0].0
    &&& forall|i: int| 0 <= i < shares.len() ==> (#[trigger] shares[i])[0].0 != 0
    &&& forall|i: int, k: int| 0 <= i < k < shares.len() ==> shares[i][0].0 != shares[k][0].0
    &&& forall|sel: Seq<Seq<(u8, u8)>>, idx: Seq<int>|
        #[trigger] selection_of(sel, shares, idx) && sel.len() >= threshold as int ==> recombined(
            sel,
        ) == secret
}

/// Relies on sss_rs's `basic_sharing::from_secrets`, threshold secret
/// sharing over GF(256). With a positive requirement of at most
/// `shares_to_create` it succeeds, returning `shares_to_create` shares:
/// each pairs a per-share evaluation point, drawn without repetition from
/// the nonzero bytes, with one value byte per secret byte, and any
/// `shares_required` or more distinct shares recombine to the secret, in
/// any order. The share values are freshly random; nothing is stated about
/// them beyond these properties.
#[verifier::external_body]
fn sss_split(secret: &Vec<u8>, shares_required: u8, shares_to_create: u8) -> (r: Result<
    Vec<Vec<(u8, u8)>>,
    (),
>)
    requires
        1 <= shares_required <= shares_to_create,
        secret@.len() >= 1,
    ensures
        r is Ok,
        r matches Ok(shares) ==> split_post(
            secret@,
            pair_seqs(shares@),
            shares_to_create,
            shares_required,
        ),
{
    sss_rs::basic_sharing::from_secrets(
        secret.as_slice(),
        shares_required,
        shares_to_create,
        None,
    ).map_err(|_| ())
}

/// Relies on sss_rs's `basic_sharing::reconstruct_secrets`, a deterministic
/// Lagrange interpolation whose result is a function of the share pairs
/// alone, here named `recombined`. Called on at least one share, all of one
/// length and with pairwise-distinct evaluation points in every column, it
/// succeeds and returns one byte per pair column. Two equal points would
/// put a zero divisor into the interpolation, which the scheme's field
/// arithmetic refuses, so such inputs are excluded here.
#[verifier::external_body]
fn sss_recombine(share_lists: &Vec<Vec<(u8, u8)>>) -> (r: Result<Vec<u8>, ()>)
    requires
        share_lists@.len() >= 1,
        forall|i: int|
            0 <= i < share_lists@.len() ==> (#[trigger] share_lists@[i])@.len()
                == share_lists@[0]@.len(),
        forall|i: int, j: int, k: int|
            #![trigger share_lists@[i]@[k], share_lists@[j]@[k]]
            0 <= i < j < share_lists@.len() && 0 <= k < share_lists@[0]@.len()
                ==> share_lists@[i]@[k].0 != share_lists@[j]@[k].0,
    ensures
        r is Ok,
        r matches Ok(s) ==> s@ == recombined(pair_seqs(share_lists@)),
        r matches Ok(s) ==> s@.len() == share_lists@[0]@.len(),
{
    sss_rs::basic_sharing::reconstruct_secrets(share_lists.as_slice()).map_err(|_| ())
}

/// The shares of one account's key together with the parameters they were
/// split under.
#[derive(Clone)]
pub struct KeyShareSet {
    pub shares: Vec<SecretShare>,
    pub share_count: u8,
    pub threshold: u8,
}

impl KeyShareSet {
    pub open spec fn wf(&self) -> bool {
        &&& 1 <= self.threshold <= self.share_count
        &&& self.shares@.len() == self.share_count as int
        &&& forall|i: int| 0 <= i < self.shares@.len() ==> (#[trigger] self.shares@[i]).wf(32)
        &&& forall|i: int, j: int|
            0 <= i < j < self.shares@.len() ==> self.shares@[i].index != self.shares@[j].index
    }

    /// The key this set was split from: what recombining all of its shares
    /// yields.
    pub open spec fn spec_key(&self) -> Seq<u8> {
        recombined(payload_seqs(self.shares@))
    }
}

/// Whether every share is well formed for a thirty-two-byte secret and no
/// two shares use one evaluation point.
pub open spec fn shares_wf(shares: Seq<SecretShare>) -> bool {
    &&& forall|i: int| 0 <= i < shares.len() ==> (#[trigger] shares[i]).wf(32)
    &&& forall|i: int, j: int| 0 <= i < j < shares.len() ==> shares[i].index != shares[j].index
}

fn check_shares_well_formed(shares: &Vec<SecretShare>) -> (r: bool)
    ensures
        r == shares_wf(shares@),
{
    let n = shares.len();
    let mut i: usize = 0;
    while i < n
        invariant
            i <= n,
            n == shares@.len(),
            forall|k: int| 0 <= k < i ==> (#[trigger] shares@[k]).wf(32),
        decreases n - i,
    {
        let sh = &shares[i];
        if sh.index == 0 || sh.payload.len() != 32 {
            return false;
        }
        let mut j: usize = 0;
        while j < 32
            invariant
                j <= 32,
                i < n,
                n == shares@.len(),
                sh == shares@[i as int],
                sh.index != 0,
                sh.payload@.len() == 32,
                forall|m: int| 0 <= m < j ==> (#[trigger] sh.payload@[m]).0 == sh.index,
            decreases 32 - j,
        {
            if sh.payload[j].0 != sh.index {
                proof {
                    assert(!shares@[i as int].wf(32));
                }
                return false;
            }
            j = j + 1;
        }
        i = i + 1;
    }
    let mut i: usize = 0;
    while i < n
        invariant
            i <= n,
            n == shares@.len(),
            forall|k: int| 0 <= k < shares@.len() ==> (#[trigger] shares@[k]).wf(32),
            forall|k: int, m: int| 0 <= k < m < shares@.len() && k < i ==> shares@[k].index
                != shares@[m].index,
        decreases n - i,
    {
        let mut j: usize = i + 1;
        while j < n
            invariant
                i < j || j == i + 1,
                i <= n,
                j <= n,
                n == shares@.len(),
                forall|m: int| i < m < j ==> shares@[i as int].index != (#[trigger] shares@[m]).index,
            decreases n - j,
        {
            if shares[i].index == shares[j].index {
                return false;
            }
            j = j + 1;
        }
        i = i + 1;
    }
    true
}

impl KeyServices {
    /// Splits the key into `shares_to_create` threshold shares of which
    /// `shares_required` are needed. Parameters are rejected with
    /// `SplitParameterError` when no share would exist, when the
    /// requirement exceeds the share count, or when it is zero — a zero
    /// threshold would owe reconstruction to the empty set, which the
    /// scheme cannot honour.
    pub fn split_secret_key(
        secret_key: &PrivateKey,
        shares_required: u8,
        shares_to_create: u8,
    ) -> (r: Result<KeyShareSet, WalletError>)
        requires
            secret_key.wf(),
        ensures
            (shares_to_create == 0 || shares_required == 0 || shares_required > shares_to_create)
                <==> r is Err,
            r matches Err(e) ==> e == WalletError::SplitParameterError,
            r matches Ok(set) ==> {
                &&& set.wf()
                &&& set.share_count == shares_to_create
                &&& set.threshold == shares_required
                &&& split_post(
                    secret_key@,
                    payload_seqs(set.shares@),
                    shares_to_create,
                    shares_required,
                )
                &&& set.spec_key() == secret_key@
            },
    {
        if shares_to_create == 0 || shares_required == 0 || shares_required > shares_to_create {
            return Err(WalletError::SplitParameterError);
        }
        let raw = match sss_split(&secret_key.bytes, shares_required, shares_to_create) {
            Ok(raw) => raw,
            Err(_) => {
                return Err(WalletError::SplitParameterError);
            },
        };
        let ghost orig = raw@;
        let mut raw = raw;
        let mut shares: Vec<SecretShare> = Vec::new();
        let n = raw.len();
        let mut i: usize = 0;
        while i < n
            invariant
                i <= n,
                n == orig.len(),
                raw@ == orig.skip(i as int),
                shares@.len() == i,
                split_post(secret_key@, pair_seqs(orig), shares_to_create, shares_required),
                secret_key@.len() == 32,
                forall|k: int|
                    0 <= k < i ==> (#[trigger] shares@[k]).payload@ == orig[k]@ && shares@[k].index
                        == orig[k]@[0].0,
            decreases n - i,
        {
            proof {
                assert(orig.skip(i as int)[0] == orig[i as int]);
                assert(pair_seqs(orig)[i as int] == orig[i as int]@);
            }
            let pairs = raw.remove(0);
            let index = pairs[0].0;
            shares.push(SecretShare { index, payload: pairs });
            proof {
                assert(orig.skip(i as int).skip(1) =~= orig.skip(i + 1));
            }
            i = i + 1;
        }
        proof {
            assert(payload_seqs(shares@) =~= pair_seqs(orig));
        }
        let set = KeyShareSet {
            shares,
            share_count: shares_to_create,
            threshold: shares_required,
        };
        proof {
            let shs = payload_seqs(set.shares@);
            assert forall|i_: int| 0 <= i_ < set.shares@.len() implies (#[trigger] set.shares@[i_]).wf(
                32,
            ) by {
                assert(shs[i_] == set.shares@[i_].payload@);
                assert(forall|j: int|
                    0 <= j < shs[i_].len() ==> (#[trigger] shs[i_][j]).0 == shs[i_][0].0);
            }
            assert forall|i_: int, j_: int|
                0 <= i_ < j_ < set.shares@.len() implies set.shares@[i_].index
                != set.shares@[j_].index by {
                assert(shs[i_] == set.shares@[i_].payload@);
                assert(shs[j_] == set.shares@[j_].payload@);
            }
            let idx_all = Seq::new(shs.len(), |k: int| k);
            assert(selection_of(shs, shs, idx_all));
            assert(recombined(shs) == secret_key@);
        }
        Ok(set)
    }

    /// Rebuilds a key from presented shares. Fails with
    /// `InsufficientSharesError` when fewer than `threshold` shares are
    /// given, with `CorruptShareError` when a payload is malformed or the
    /// recombined bytes are no valid key, and otherwise returns exactly the
    /// recombination of the presented payloads.
    pub fn reconstruct(shares: &Vec<SecretShare>, threshold: u8) -> (r: Result<
        PrivateKey,
        WalletError,
    >)
        requires
            threshold >= 1,
        ensures
            shares@.len() < threshold as int <==> (r matches Err(e) && e
                == WalletError::InsufficientSharesError),
            (shares@.len() >= threshold as int && !(shares_wf(shares@) && scalar_valid(
                recombined(payload_seqs(shares@)),
            ))) <==> (r matches Err(e) && e == WalletError::CorruptShareError),
            r matches Err(e) ==> e == WalletError::InsufficientSharesError || e
                == WalletError::CorruptShareError,
            r matches Ok(k) ==> {
                &&& shares@.len() >= threshold as int
                &&& shares_wf(shares@)
                &&& k@ == recombined(payload_seqs(shares@))
                &&& k.wf()
            },
    {
        if shares.len() < threshold as usize {
            return Err(WalletError::InsufficientSharesError);
        }
        if !check_shares_well_formed(shares) {
            return Err(WalletError::CorruptShareError);
        }
        let mut raw: Vec<Vec<(u8, u8)>> = Vec::new();
        let n = shares.len();
        let mut i: usize = 0;
        while i < n
            invariant
                i <= n,
                n == shares@.len(),
                raw@.len() == i,
                forall|k: int| 0 <= k < shares@.len() ==> (#[trigger] shares@[k]).wf(32),
                forall|k: int| 0 <= k < i ==> (#[trigger] raw@[k])@ == shares@[k].payload@,
            decreases n - i,
        {
            let sh = &shares[i];
            let mut pairs: Vec<(u8, u8)> = Vec::new();
            let mut j: usize = 0;
            while j < 32
                invariant
                    j <= 32,
                    i < n,
                    n == shares@.len(),
                    sh == shares@[i as int],
                    sh.payload@.len() == 32,
                    pairs@.len() == j,
                    forall|m: int| 0 <= m < j ==> (#[trigger] pairs@[m]) == sh.payload@[m],
                decreases 32 - j,
            {
                pairs.push(sh.payload[j]);
                j = j + 1;
            }
            proof {
                assert(pairs@ =~= sh.payload@);
            }
            raw.push(pairs);
            i = i + 1;
        }
        proof {
            assert(pair_seqs(raw@) =~= payload_seqs(shares@));
            assert forall|a: int, b: int, c: int|
                0 <= a < b < raw@.len() && 0 <= c < raw@[0]@.len() implies raw@[a]@[c].0
                != raw@[b]@[c].0 by {
                assert(raw@[a]@ == shares@[a].payload@);
                assert(raw@[b]@ == shares@[b].payload@);
                assert(shares@[a].wf(32));
                assert(shares@[b].wf(32));
                assert(shares@[a].payload@[c].0 == shares@[a].index);
                assert(shares@[b].payload@[c].0 == shares@[b].index);
                assert(shares@[a].index != shares@[b].index);
            }
        }
        let recovered = match sss_recombine(&raw) {
            Ok(recovered) => recovered,
            Err(_) => {
                return Err(WalletError::CorruptShareError);
            },
        };
        match PrivateKey::from_bytes(recovered) {
            Ok(key) => Ok(key),
            Err(_) => Err(WalletError::CorruptShareError),
        }
    }
}

/// Any selection of at least `threshold` distinct shares of a set the
/// splitter returned recombines to exactly the key it was split from:
/// reconstruction inverts splitting on every large enough subset.
pub proof fn lemma_share_selection_reconstruction(
    secret: Seq<u8>,
    shares: Seq<SecretShare>,
    n: u8,
    threshold: u8,
    sel: Seq<SecretShare>,
    idx: Seq<int>,
)
    requires
        split_post(secret, payload_seqs(shares), n, threshold),
        idx.len() == sel.len(),
        forall|i: int| 0 <= i < idx.len() ==> 0 <= #[trigger] idx[i] < shares.len() && sel[i]
            == shares[idx[i]],
        forall|i: int, j: int| 0 <= i < j < idx.len() ==> idx[i] != idx[j],
        sel.len() >= threshold as int,
    ensures
        recombined(payload_seqs(sel)) == secret,
{
    let psel = payload_seqs(sel);
    let pall = payload_seqs(shares);
    assert forall|i: int| 0 <= i < idx.len() implies 0 <= #[trigger] idx[i] < pall.len()
        && psel[i] == pall[idx[i]] by {
        assert(psel[i] == sel[i].payload@);
        assert(pall[idx[i]] == shares[idx[i]].payload@);
    }
    assert(selection_of(psel, pall, idx));
    lemma_threshold_reconstruction(secret, pall, n, threshold, psel, idx);
}

/// Any selection of at least `threshold` distinct shares of a successful
/// split recombines to exactly the original secret.
pub proof fn lemma_threshold_reconstruction(
    secret: Seq<u8>,
    shares: Seq<Seq<(u8, u8)>>,
    n: u8,
    threshold: u8,
    sel: Seq<Seq<(u8, u8)>>,
    idx: Seq<int>,
)
    requires
        split_post(secret, shares, n, threshold),
        selection_of(sel, shares, idx),
        sel.len() >= threshold as int,
    ensures
        recombined(sel) == secret,
{
}

} // verus!
