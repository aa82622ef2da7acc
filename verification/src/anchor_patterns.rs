//! Anchor idioms written out in plain code: an escrow account with its
//! space, an instruction handler, a derived-address stand-in, `require!`
//! style checks, and a token ledger that moves balances between accounts.

use vstd::prelude::*;
use crate::text::{decimal, push_decimal, keys_equal, str_eq};

verus! {

/// The escrow account's data.
pub struct EscrowState {
    pub initializer: [u8; 32],
    pub taker: [u8; 32],
    pub maker_amount: u64,
    pub taker_amount: u64,
    pub bump: u8,
}

impl EscrowState {
    /// Bytes of the fields: two keys, two amounts, the bump.
    pub const SPACE: usize = 81;

    /// An escrow with the given fields.
    pub fn new(initializer: [u8; 32], taker: [u8; 32], maker_amount: u64, taker_amount: u64, bump: u8) -> (s: Self)
        ensures
            s == (EscrowState { initializer, taker, maker_amount, taker_amount, bump }),
    {
        Self { initializer, taker, maker_amount, taker_amount, bump }
    }
}

/// Errors of the escrow checks.
#[derive(Debug, PartialEq, Eq, Structural)]
pub enum EscrowError {
    ZeroAmount,
    AccountLocked,
    InsufficientFunds { balance: u64, requested: u64 },
    Unauthorized,
}

/// The text of an escrow error.
pub open spec fn escrow_error_text(e: EscrowError) -> Seq<char> {
    match e {
        EscrowError::ZeroAmount => "Miktar sıfır olamaz"@,
        EscrowError::AccountLocked => "Hesap kilitli"@,
        EscrowError::InsufficientFunds { balance, requested } =>
            "Yetersiz bakiye: sahip="@ + decimal(balance as nat) + ", istek="@ + decimal(requested as nat),
        EscrowError::Unauthorized => "Yetkisiz erişim"@,
    }
}

impl EscrowError {
    /// The error's message.
    pub fn to_string(&self) -> (s: String)
        ensures
            s@ == escrow_error_text(*self),
    {
        match self {
            EscrowError::ZeroAmount => String::from_str("Miktar sıfır olamaz"),
            EscrowError::AccountLocked => String::from_str("Hesap kilitli"),
            EscrowError::InsufficientFunds { balance, requested } => {
                let mut s = String::from_str("Yetersiz bakiye: sahip=");
                push_decimal(&mut s, *balance);
                s.append(", istek=");
                push_decimal(&mut s, *requested);
                s
            },
            EscrowError::Unauthorized => String::from_str("Yetkisiz erişim"),
        }
    }
}

/// Fills in the escrow for a new offer; both amounts must be nonzero. A
/// refused offer leaves the escrow as it was.
pub fn instruction_make(
    state: &mut EscrowState,
    initializer: [u8; 32],
    taker: [u8; 32],
    maker_amount: u64,
    taker_amount: u64,
    bump: u8,
) -> (r: Result<(), EscrowError>)
    ensures
        maker_amount == 0 || taker_amount == 0 ==> r == Err::<(), EscrowError>(EscrowError::ZeroAmount)
            && *final(state) == *old(state),
        maker_amount != 0 && taker_amount != 0 ==> r is Ok
            && *final(state) == (EscrowState { initializer, taker, maker_amount, taker_amount, bump }),
{
    if maker_amount == 0 {
        return Err(EscrowError::ZeroAmount);
    }
    if taker_amount == 0 {
        return Err(EscrowError::ZeroAmount);
    }
    state.initializer = initializer;
    state.taker = taker;
    state.maker_amount = maker_amount;
    state.taker_amount = taker_amount;
    state.bump = bump;
    Ok(())
}

/// Refuses a zero amount.
pub fn require_nonzero(amount: u64) -> (r: Result<(), EscrowError>)
    ensures
        amount == 0 ==> r == Err::<(), EscrowError>(EscrowError::ZeroAmount),
        amount != 0 ==> r is Ok,
{
    if amount == 0 {
        return Err(EscrowError::ZeroAmount);
    }
    Ok(())
}

/// Refuses a caller whose key is not the expected authority.
pub fn validate_authority(caller: &[u8; 32], expected: &[u8; 32]) -> (r: Result<(), EscrowError>)
    ensures
        caller@ != expected@ ==> r == Err::<(), EscrowError>(EscrowError::Unauthorized),
        caller@ == expected@ ==> r is Ok,
{
    if !keys_equal(caller, expected) {
        return Err(EscrowError::Unauthorized);
    }
    Ok(())
}

/// The outcome of the withdrawal checks, in order: a nonzero amount, an
/// unlocked account, enough balance.
pub open spec fn withdraw_check(amount: u64, is_locked: bool, balance: u64) -> Result<(), EscrowError> {
    if amount == 0 {
        Err(EscrowError::ZeroAmount)
    } else if is_locked {
        Err(EscrowError::AccountLocked)
    } else if balance < amount {
        Err(EscrowError::InsufficientFunds { balance, requested: amount })
    } else {
        Ok(())
    }
}

/// Checks a withdrawal of `amount` from an account holding `balance`.
pub fn validate_withdraw(amount: u64, is_locked: bool, balance: u64) -> (r: Result<(), EscrowError>)
    ensures
        r == withdraw_check(amount, is_locked, balance),
        r is Ok <==> amount > 0 && !is_locked && amount <= balance,
{
    if amount == 0 {
        return Err(EscrowError::ZeroAmount);
    }
    if is_locked {
        return Err(EscrowError::AccountLocked);
    }
    if balance < amount {
        return Err(EscrowError::InsufficientFunds { balance, requested: amount });
    }
    Ok(())
}

/// A withdrawal passes the checks exactly when the amount is nonzero, the
/// account unlocked, and the amount at most the balance (the whole balance
/// may leave); a nonzero amount from an unlocked account above the balance
/// is refused as insufficient funds, naming both.
pub proof fn law_withdraw_check(amount: u64, is_locked: bool, balance: u64)
    ensures
        withdraw_check(amount, is_locked, balance) is Ok <==> amount > 0 && !is_locked && amount <= balance,
        amount > 0 && !is_locked && balance < amount ==> withdraw_check(amount, is_locked, balance)
            == Err::<(), EscrowError>(EscrowError::InsufficientFunds { balance, requested: amount }),
        amount > 0 && is_locked ==> withdraw_check(amount, is_locked, balance) == Err::<(), EscrowError>(EscrowError::AccountLocked),
        amount == 0 ==> withdraw_check(amount, is_locked, balance) == Err::<(), EscrowError>(EscrowError::ZeroAmount),
{
}

/// The bump every simulated derived address carries.
pub const PDA_BUMP: u8 = 254;

/// Byte `b` at position `i` of the seed bytes, offset by the position
/// (wrapping at 256).
pub open spec fn mix_byte(b: u8, i: int) -> u8 {
    ((b + i) % 256) as u8
}

/// The 32 address bytes after folding the first `n` seed bytes into them:
/// byte `i` is mixed into slot `i % 32` by exclusive or.
pub open spec fn pda_state(input: Seq<u8>, n: nat) -> Seq<u8>
    decreases n,
{
    if n == 0 {
        Seq::new(32, |k: int| 0u8)
    } else {
        let prev = pda_state(input, (n - 1) as nat);
        let i = n - 1;
        prev.update(i % 32, prev[i % 32] ^ mix_byte(input[i], i))
    }
}

/// The simulated address of a list of seeds: all seed bytes in order,
/// folded into 32 bytes.
pub open spec fn pda_of(seeds: Seq<Seq<u8>>) -> Seq<u8> {
    let input = seeds.flatten();
    pda_state(input, input.len())
}

/// The views of a list of seed slices.
pub open spec fn seed_views(seeds: &[&[u8]]) -> Seq<Seq<u8>> {
    seeds@.map_values(|s: &[u8]| s@)
}

/// The simulated address always has 32 bytes.
pub proof fn lemma_pda_state_len(input: Seq<u8>, n: nat)
    ensures
        pda_state(input, n).len() == 32,
    decreases n,
{
    if n > 0 {
        lemma_pda_state_len(input, (n - 1) as nat);
    }
}

/// All seed bytes, one seed after another.
fn concat_seeds(seeds: &[&[u8]]) -> (out: Vec<u8>)
    ensures
        out@ == seed_views(seeds).flatten(),
{
    let mut out: Vec<u8> = Vec::new();
    let mut j: usize = 0;
    while j < seeds.len()
        invariant
            0 <= j <= seeds@.len(),
            out@ == seed_views(seeds).take(j as int).flatten(),
        decreases seeds@.len() - j,
    {
        let seed: &[u8] = seeds[j];
        let ghost before = out@;
        let mut k: usize = 0;
        while k < seed.len()
            invariant
                0 <= k <= seed@.len(),
                out@ == before + seed@.take(k as int),
            decreases seed@.len() - k,
        {
            out.push(seed[k]);
            k = k + 1;
            proof {
                assert(out@ =~= before + seed@.take(k as int));
            }
        }
        proof {
            let views = seed_views(seeds);
            assert(seed@.take(k as int) =~= seed@);
            assert(views[j as int] == seed@);
            assert(views.take(j + 1) =~= views.take(j as int).push(views[j as int]));
            views.take(j as int).lemma_flatten_push(views[j as int]);
        }
        j = j + 1;
    }
    proof {
        assert(seed_views(seeds).take(seeds@.len() as int) =~= seed_views(seeds));
    }
    out
}

/// A stand-in for deriving a program address: folds all seed bytes into 32
/// bytes and pairs them with the fixed bump.
pub fn simulate_find_pda(seeds: &[&[u8]]) -> (r: ([u8; 32], u8))
    ensures
        r.0@ == pda_of(seed_views(seeds)),
        r.1 == PDA_BUMP,
        r.1 == 254,
{
    let hasher_input = concat_seeds(seeds);
    let mut result: [u8; 32] = [0u8; 32];
    proof {
        assert(result@ =~= pda_state(hasher_input@, 0));
    }
    let mut i: usize = 0;
    while i < hasher_input.len()
        invariant
            0 <= i <= hasher_input@.len(),
            result@ == pda_state(hasher_input@, i as nat),
        decreases hasher_input@.len() - i,
    {
        proof {
            lemma_pda_state_len(hasher_input@, i as nat);
        }
        let byte = hasher_input[i];
        let slot = i % 32;
        let offset = (i % 256) as u8;
        let mixed = byte.wrapping_add(offset);
        assert(mixed == mix_byte(byte, i as int));
        result[slot] = result[slot] ^ mixed;
        i = i + 1;
        proof {
            assert(result@ =~= pda_state(hasher_input@, i as nat));
        }
    }
    let bump = PDA_BUMP;
    (result, bump)
}

/// Folding in one more seed byte: the byte at position `n` is offset by its
/// position, wrapping at 256, and mixed by exclusive or into slot `n % 32`;
/// every other slot stays as it was.
pub proof fn law_pda_step(input: Seq<u8>, n: nat)
    requires
        n < input.len(),
    ensures
        pda_state(input, n + 1)[(n % 32) as int] == pda_state(input, n)[(n % 32) as int] ^ (((input[n as int] as int + n) % 256) as u8),
        forall|k: int| 0 <= k < 32 && k != n % 32 ==> #[trigger] pda_state(input, n + 1)[k] == pda_state(input, n)[k],
{
    lemma_pda_state_len(input, n);
}

/// Address byte `k` after folding the first `n` bytes, for `n` up to 64:
/// the offset byte at position `k` (wrapping at 256), mixed by exclusive or
/// with the offset byte at position `k + 32` where there is one, and zero
/// where no byte reached slot `k`.
proof fn lemma_pda_state_short(input: Seq<u8>, n: nat)
    requires
        n <= input.len(),
        n <= 64,
    ensures
        pda_state(input, n).len() == 32,
        forall|k: int| 0 <= k < 32 ==> #[trigger] pda_state(input, n)[k] == (if k + 32 < n {
            (((input[k] as int + k) % 256) as u8) ^ (((input[k + 32] as int + k + 32) % 256) as u8)
        } else if k < n {
            ((input[k] as int + k) % 256) as u8
        } else {
            0u8
        }),
    decreases n,
{
    lemma_pda_state_len(input, n);
    if n > 0 {
        let m = (n - 1) as nat;
        lemma_pda_state_short(input, m);
        lemma_pda_state_len(input, m);
        let prev = pda_state(input, m);
        let b = ((input[m as int] as int + m) % 256) as u8;
        assert(mix_byte(input[m as int], m as int) == b);
        if m < 32 {
            assert(m % 32 == m);
            assert(prev[m as int] == 0u8);
            assert(0u8 ^ b == b) by (bit_vector);
        } else {
            assert(m % 32 == m - 32);
        }
    }
}

/// The address derived from seeds of at most 64 bytes in all, byte by byte:
/// byte `k` is seed byte `k` plus `k` (wrapping at 256), mixed by exclusive
/// or with seed byte `k + 32` plus `k + 32` where the seeds reach that far,
/// and zero where they do not reach byte `k`.
pub proof fn law_pda_of_short_seeds(seeds: Seq<Seq<u8>>)
    requires
        seeds.flatten().len() <= 64,
    ensures
        pda_of(seeds).len() == 32,
        forall|k: int| 0 <= k < 32 ==> #[trigger] pda_of(seeds)[k] == ({
            let input = seeds.flatten();
            if k + 32 < input.len() {
                (((input[k] as int + k) % 256) as u8) ^ (((input[k + 32] as int + k + 32) % 256) as u8)
            } else if k < input.len() {
                ((input[k] as int + k) % 256) as u8
            } else {
                0u8
            }
        }),
{
    let input = seeds.flatten();
    lemma_pda_state_short(input, input.len());
}

/// Whether an address and bump are the ones derived from `seeds`.
pub open spec fn pda_matches(pda: Seq<u8>, seeds: Seq<Seq<u8>>, bump: u8) -> bool {
    pda == pda_of(seeds) && bump == PDA_BUMP
}

/// Whether `pda` and `bump` are what the simulation derives from `seeds`.
pub fn validate_pda_seeds(pda: &[u8; 32], seeds: &[&[u8]], bump: u8) -> (r: bool)
    ensures
        r == pda_matches(pda@, seed_views(seeds), bump),
        r <==> pda@ == pda_of(seed_views(seeds)) && bump == 254,
{
    let (expected, expected_bump) = simulate_find_pda(seeds);
    keys_equal(pda, &expected) && bump == expected_bump
}

/// The address and bump derived from some seeds always pass the check
/// against the same seeds, and the address always has 32 bytes.
pub proof fn law_found_pda_validates(seeds: Seq<Seq<u8>>)
    ensures
        pda_matches(pda_of(seeds), seeds, PDA_BUMP),
        pda_of(seeds).len() == 32,
{
    let input = seeds.flatten();
    lemma_pda_state_len(input, input.len());
}

/// Whether no account name occurs twice among ledger entries.
pub open spec fn keys_unique(s: Seq<(Seq<char>, u64)>) -> bool {
    forall|i: int, j: int| 0 <= i < j < s.len() ==> #[trigger] s[i].0 != #[trigger] s[j].0
}

/// The balances the entries record, a later entry for the same name
/// winning.
pub open spec fn ledger_map(s: Seq<(Seq<char>, u64)>) -> Map<Seq<char>, u64>
    decreases s.len(),
{
    if s.len() == 0 {
        Map::empty()
    } else {
        ledger_map(s.drop_last()).insert(s.last().0, s.last().1)
    }
}

/// The sum of the balances the entries record.
pub open spec fn supply(s: Seq<(Seq<char>, u64)>) -> int
    decreases s.len(),
{
    if s.len() == 0 {
        0
    } else {
        supply(s.drop_last()) + s.last().1
    }
}

/// The balance of `account`, 0 for an account the ledger does not know.
pub open spec fn balance_in(m: Map<Seq<char>, u64>, account: Seq<char>) -> u64 {
    if m.contains_key(account) { m[account] } else { 0 }
}

/// The balances after moving `amount` from `from` to `to`: first taken
/// from `from`, then added to `to` (an unknown `to` starting at 0).
pub open spec fn after_transfer(m: Map<Seq<char>, u64>, from: Seq<char>, to: Seq<char>, amount: u64) -> Map<Seq<char>, u64> {
    let m1 = m.insert(from, (balance_in(m, from) - amount) as u64);
    m1.insert(to, (balance_in(m1, to) + amount) as u64)
}

proof fn lemma_map_lookup(s: Seq<(Seq<char>, u64)>, i: int)
    requires
        keys_unique(s),
        0 <= i < s.len(),
    ensures
        ledger_map(s).contains_key(s[i].0),
        ledger_map(s)[s[i].0] == s[i].1,
    decreases s.len(),
{
    if i < s.len() - 1 {
        assert(s.drop_last()[i] == s[i]);
        assert(keys_unique(s.drop_last()));
        lemma_map_lookup(s.drop_last(), i);
        assert(s[i].0 != s[s.len() - 1].0);
    }
}

proof fn lemma_map_absent(s: Seq<(Seq<char>, u64)>, k: Seq<char>)
    requires
        forall|i: int| 0 <= i < s.len() ==> #[trigger] s[i].0 != k,
    ensures
        !ledger_map(s).contains_key(k),
    decreases s.len(),
{
    if s.len() > 0 {
        assert forall|i: int| 0 <= i < s.drop_last().len() implies #[trigger] s.drop_last()[i].0 != k by {
            assert(s.drop_last()[i] == s[i]);
        }
        lemma_map_absent(s.drop_last(), k);
        assert(s[s.len() - 1].0 != k);
    }
}

proof fn lemma_map_has_entry(s: Seq<(Seq<char>, u64)>, k: Seq<char>)
    requires
        ledger_map(s).contains_key(k),
    ensures
        exists|i: int| 0 <= i < s.len() && #[trigger] s[i].0 == k,
    decreases s.len(),
{
    if s.len() > 0 && s.last().0 != k {
        lemma_map_has_entry(s.drop_last(), k);
        let i = choose|i: int| 0 <= i < s.drop_last().len() && #[trigger] s.drop_last()[i].0 == k;
        assert(s[i] == s.drop_last()[i]);
    } else if s.len() > 0 {
        assert(s[s.len() - 1].0 == k);
    }
}

proof fn lemma_map_update(s: Seq<(Seq<char>, u64)>, i: int, v: u64)
    requires
        keys_unique(s),
        0 <= i < s.len(),
    ensures
        keys_unique(s.update(i, (s[i].0, v))),
        ledger_map(s.update(i, (s[i].0, v))) == ledger_map(s).insert(s[i].0, v),
        supply(s.update(i, (s[i].0, v))) == supply(s) - s[i].1 + v,
    decreases s.len(),
{
    let t = s.update(i, (s[i].0, v));
    assert forall|a: int, b: int| 0 <= a < b < t.len() implies #[trigger] t[a].0 != #[trigger] t[b].0 by {
        assert(t[a].0 == s[a].0);
        assert(t[b].0 == s[b].0);
    }
    if i == s.len() - 1 {
        assert(t.drop_last() =~= s.drop_last());
        assert(ledger_map(t) =~= ledger_map(s).insert(s[i].0, v));
    } else {
        assert(t.drop_last() =~= s.drop_last().update(i, (s[i].0, v)));
        assert(keys_unique(s.drop_last()));
        assert(s.drop_last()[i] == s[i]);
        lemma_map_update(s.drop_last(), i, v);
        assert(s[i].0 != s[s.len() - 1].0);
        assert(t.last() == s.last());
        assert(ledger_map(t) =~= ledger_map(s).insert(s[i].0, v));
    }
}

proof fn lemma_push_fresh(s: Seq<(Seq<char>, u64)>, k: Seq<char>, v: u64)
    requires
        keys_unique(s),
        forall|i: int| 0 <= i < s.len() ==> #[trigger] s[i].0 != k,
    ensures
        keys_unique(s.push((k, v))),
        ledger_map(s.push((k, v))) == ledger_map(s).insert(k, v),
        supply(s.push((k, v))) == supply(s) + v,
{
    let t = s.push((k, v));
    assert(t.drop_last() =~= s);
    assert forall|a: int, b: int| 0 <= a < b < t.len() implies #[trigger] t[a].0 != #[trigger] t[b].0 by {
        if b == s.len() {
            assert(t[a] == s[a]);
        } else {
            assert(t[a] == s[a] && t[b] == s[b]);
        }
    }
}

/// Token balances by account name.
pub struct TokenLedger {
    balances: Vec<(&'static str, u64)>,
}

impl TokenLedger {
    /// The ledger's entries: account names with their balances, in the
    /// order the accounts first appeared.
    pub closed spec fn entries(&self) -> Seq<(Seq<char>, u64)> {
        self.balances@.map_values(|e: (&'static str, u64)| (e.0@, e.1))
    }

    #[verifier::type_invariant]
    closed spec fn names_unique(&self) -> bool {
        keys_unique(self.entries())
    }

    /// The sum of all balances in the ledger.
    pub closed spec fn total_supply(&self) -> int {
        supply(self.entries())
    }

    /// Where `account`'s entry stands, if the ledger has one.
    fn position(&self, account: &str) -> (r: Option<usize>)
        ensures
            match r {
                Some(i) => i < self.entries().len() && self.entries()[i as int].0 == account@,
                None => forall|i: int| 0 <= i < self.entries().len() ==> #[trigger] self.entries()[i].0 != account@,
            },
    {
        let mut i: usize = 0;
        while i < self.balances.len()
            invariant
                0 <= i <= self.balances@.len(),
                self.entries().len() == self.balances@.len(),
                forall|j: int| 0 <= j < i ==> #[trigger] self.entries()[j].0 != account@,
            decreases self.balances@.len() - i,
        {
            if str_eq(self.balances[i].0, account) {
                return Some(i);
            }
            i = i + 1;
        }
        None
    }

    /// An empty ledger.
    pub fn new() -> (r: Self)
        ensures
            r@ == Map::<Seq<char>, u64>::empty(),
            r.total_supply() == 0,
    {
        let r = Self { balances: Vec::new() };
        proof {
            assert(r.entries() =~= Seq::<(Seq<char>, u64)>::empty());
        }
        r
    }

    /// Sets `account`'s balance to `amount`, creating the account if needed.
    pub fn mint(&mut self, account: &'static str, amount: u64)
        ensures
            final(self)@ == old(self)@.insert(account@, amount),
    {
        proof {
            use_type_invariant(&*self);
        }
        let pos = self.position(account);
        let ghost before = self.entries();
        let mut balances: Vec<(&'static str, u64)> = Vec::new();
        std::mem::swap(&mut balances, &mut self.balances);
        match pos {
            Some(i) => {
                balances.set(i, (account, amount));
                proof {
                    lemma_map_update(before, i as int, amount);
                    assert(balances@.map_values(|e: (&'static str, u64)| (e.0@, e.1)) =~= before.update(i as int, (before[i as int].0, amount)));
                }
            },
            None => {
                balances.push((account, amount));
                proof {
                    lemma_push_fresh(before, account@, amount);
                    assert(balances@.map_values(|e: (&'static str, u64)| (e.0@, e.1)) =~= before.push((account@, amount)));
                }
            },
        }
        self.balances = balances;
    }

    /// Moves `amount` tokens from `from` to `to`, creating `to` if needed.
    /// Refuses, changing nothing, when `from` holds less than `amount`.
    /// Tokens are neither created nor destroyed.
    pub fn transfer(&mut self, from: &str, to: &'static str, amount: u64) -> (r: Result<(), EscrowError>)
        requires
            old(self)@.contains_key(from@) || amount > 0,
            balance_in(old(self)@, from@) >= amount && from@ != to@
                ==> balance_in(old(self)@, to@) + amount <= u64::MAX,
        ensures
            balance_in(old(self)@, from@) < amount ==> r == Err::<(), EscrowError>(
                EscrowError::InsufficientFunds { balance: balance_in(old(self)@, from@), requested: amount },
            ) && final(self)@ == old(self)@,
            balance_in(old(self)@, from@) >= amount ==> r is Ok
                && final(self)@ == after_transfer(old(self)@, from@, to@, amount),
            final(self).total_supply() == old(self).total_supply(),
    {
        proof {
            use_type_invariant(&*self);
        }
        let ghost before = self.entries();
        let from_pos = self.position(from);
        let from_balance = match from_pos {
            Some(i) => self.balances[i].1,
            None => 0,
        };
        proof {
            match from_pos {
                Some(i) => lemma_map_lookup(before, i as int),
                None => lemma_map_absent(before, from@),
            }
        }
        if from_balance < amount {
            return Err(EscrowError::InsufficientFunds { balance: from_balance, requested: amount });
        }
        let i = match from_pos {
            Some(i) => i,
            None => 0,
        };
        let mut balances: Vec<(&'static str, u64)> = Vec::new();
        std::mem::swap(&mut balances, &mut self.balances);
        let from_name = balances[i].0;
        balances.set(i, (from_name, from_balance - amount));
        let ghost middle = balances@.map_values(|e: (&'static str, u64)| (e.0@, e.1));
        proof {
            lemma_map_update(before, i as int, (from_balance - amount) as u64);
            assert(middle =~= before.update(i as int, (before[i as int].0, (from_balance - amount) as u64)));
        }
        self.balances = balances;
        let to_pos = self.position(to);
        let mut balances: Vec<(&'static str, u64)> = Vec::new();
        std::mem::swap(&mut balances, &mut self.balances);
        match to_pos {
            Some(j) => {
                let to_balance = balances[j].1;
                proof {
                    lemma_map_lookup(middle, j as int);
                    if from@ == to@ {
                        assert(to_balance == from_balance - amount);
                    } else {
                        assert(before[i as int].0 == from@);
                        lemma_map_lookup(before, j as int);
                    }
                }
                balances.set(j, (to, to_balance + amount));
                proof {
                    lemma_map_update(middle, j as int, (to_balance + amount) as u64);
                    assert(balances@.map_values(|e: (&'static str, u64)| (e.0@, e.1)) =~= middle.update(j as int, (middle[j as int].0, (to_balance + amount) as u64)));
                }
            },
            None => {
                balances.push((to, amount));
                proof {
                    lemma_map_absent(middle, to@);
                    lemma_push_fresh(middle, to@, amount);
                    assert(balances@.map_values(|e: (&'static str, u64)| (e.0@, e.1)) =~= middle.push((to@, amount)));
                }
            },
        }
        self.balances = balances;
        Ok(())
    }

    /// The ledger's accounts with their balances, each account once, in the
    /// order the accounts first appeared.
    pub fn balances(&self) -> (r: Vec<(&'static str, u64)>)
        ensures
            r@.map_values(|e: (&'static str, u64)| (e.0@, e.1)) == self.entries(),
            forall|i: int| 0 <= i < r@.len() ==> self@.contains_key((#[trigger] r@[i]).0@)
                && self@[r@[i].0@] == r@[i].1,
            forall|k: Seq<char>| self@.contains_key(k) ==> exists|i: int| 0 <= i < r@.len() && (#[trigger] r@[i]).0@ == k,
            forall|i: int, j: int| 0 <= i < j < r@.len() ==> (#[trigger] r@[i]).0@ != (#[trigger] r@[j]).0@,
    {
        proof {
            use_type_invariant(self);
        }
        let mut r: Vec<(&'static str, u64)> = Vec::new();
        let mut i: usize = 0;
        while i < self.balances.len()
            invariant
                0 <= i <= self.balances@.len(),
                r@ == self.balances@.take(i as int),
            decreases self.balances@.len() - i,
        {
            r.push(self.balances[i]);
            i = i + 1;
            proof {
                assert(r@ =~= self.balances@.take(i as int));
            }
        }
        proof {
            assert(r@ =~= self.balances@);
            let e = self.entries();
            assert forall|i: int| 0 <= i < r@.len() implies self@.contains_key((#[trigger] r@[i]).0@)
                && self@[r@[i].0@] == r@[i].1 by {
                assert(e[i] == (r@[i].0@, r@[i].1));
                lemma_map_lookup(e, i);
            }
            assert forall|k: Seq<char>| self@.contains_key(k) implies exists|i: int| 0 <= i < r@.len() && (#[trigger] r@[i]).0@ == k by {
                lemma_map_has_entry(e, k);
                let i = choose|i: int| 0 <= i < e.len() && #[trigger] e[i].0 == k;
                assert(r@[i].0@ == e[i].0);
            }
            assert forall|i: int, j: int| 0 <= i < j < r@.len() implies (#[trigger] r@[i]).0@ != (#[trigger] r@[j]).0@ by {
                assert(e[i].0 == r@[i].0@ && e[j].0 == r@[j].0@);
            }
        }
        r
    }
}

impl View for TokenLedger {
    type V = Map<Seq<char>, u64>;

    closed spec fn view(&self) -> Map<Seq<char>, u64> {
        ledger_map(self.entries())
    }
}

} // verus!
