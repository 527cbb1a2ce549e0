use vstd::prelude::*;
use crate::address::{balance_tag, le_bytes, pow256, program_address};
use crate::error::WavexError;
use crate::instructions::{after_template, initial_state, MintNFT};
use crate::mint::{is_mint_plan, mint_rejection, MintPlan};
use crate::records::{Address, ProgramState};

verus! {

/// The program state after `n` successful template creations from `s`.
pub open spec fn after_templates(s: ProgramState, n: nat) -> ProgramState
    decreases n,
{
    if n == 0 {
        s
    } else {
        after_template(after_templates(s, (n - 1) as nat))
    }
}

/// Starting from a freshly initialized program state, `n` successful
/// template creations leave the template count at `n`, and the creation
/// made when `k` templates existed received id `k`: the ids handed out are
/// exactly `0..n`, in order.
pub proof fn lemma_template_ids_sequential(authority: Address, n: nat)
    requires
        n <= u64::MAX,
    ensures
        after_templates(initial_state(authority), n).template_count == n,
        forall|k: nat| k <= n ==> #[trigger] after_templates(initial_state(authority), k).template_count == k,
    decreases n,
{
    if n > 0 {
        lemma_template_ids_sequential(authority, (n - 1) as nat);
    }
}

/// Two numbers below `256^k` with the same `k` little-endian bytes are equal.
pub proof fn lemma_le_bytes_injective(a: nat, b: nat, k: nat)
    requires
        a < pow256(k),
        b < pow256(k),
        le_bytes(a, k) == le_bytes(b, k),
    ensures
        a == b,
    decreases k,
{
    if k > 0 {
        let p = pow256((k - 1) as nat);
        assert(le_bytes(a, k)[0] == (a % 256) as u8);
        assert(le_bytes(b, k)[0] == (b % 256) as u8);
        assert(le_bytes(a / 256, (k - 1) as nat) =~= le_bytes(a, k).drop_first());
        assert(le_bytes(b / 256, (k - 1) as nat) =~= le_bytes(b, k).drop_first());
        assert(a / 256 < p) by (nonlinear_arith)
            requires
                a < 256 * p,
        ;
        assert(b / 256 < p) by (nonlinear_arith)
            requires
                b < 256 * p,
        ;
        lemma_le_bytes_injective(a / 256, b / 256, (k - 1) as nat);
        assert(a % 256 == b % 256);
        assert(a == 256 * (a / 256) + a % 256) by (nonlinear_arith);
        assert(b == 256 * (b / 256) + b % 256) by (nonlinear_arith);
    } else {
        assert(pow256(0) == 1);
    }
}

/// Distinct template ids give distinct address seeds, so every id names its
/// own template address.
pub proof fn lemma_template_seeds_distinct(a: u64, b: u64)
    requires
        a != b,
    ensures
        le_bytes(a as nat, 8) != le_bytes(b as nat, 8),
{
    assert(pow256(0) == 1);
    assert(pow256(1) == 256);
    assert(pow256(2) == 65536);
    assert(pow256(3) == 16777216);
    assert(pow256(4) == 4294967296);
    assert(pow256(5) == 1099511627776);
    assert(pow256(6) == 281474976710656);
    assert(pow256(7) == 72057594037927936);
    assert(pow256(8) == 18446744073709551616);
    if le_bytes(a as nat, 8) == le_bytes(b as nat, 8) {
        lemma_le_bytes_injective(a as nat, b as nat, 8);
    }
}

/// Balance derivation is deterministic, and distinct holdings hash distinct
/// seed bytes: the same holding always yields the same address and bump,
/// and the tag-and-seed input of two different holdings never coincides.
pub proof fn lemma_balance_derivation(holding_a: Address, holding_b: Address, program_id: Address)
    ensures
        holding_a@ == holding_b@ ==> program_address(balance_tag(), holding_a@, program_id@)
            == program_address(balance_tag(), holding_b@, program_id@),
        holding_a@ != holding_b@ ==> balance_tag() + holding_a@ != balance_tag() + holding_b@,
{
    if holding_a@ != holding_b@ && balance_tag() + holding_a@ == balance_tag() + holding_b@ {
        let n = balance_tag().len();
        assert(holding_a@ =~= (balance_tag() + holding_a@).subrange(n as int, (n + holding_a@.len()) as int));
        assert(holding_b@ =~= (balance_tag() + holding_b@).subrange(n as int, (n + holding_b@.len()) as int));
    }
}

/// The balance record of a planned mint is found again by deriving from its
/// own token holding: re-deriving gives back the address and bump it is
/// stored under.
pub proof fn lemma_minted_balance_rederivable(
    p: MintPlan,
    ctx: MintNFT,
    base_balance: u64,
    balance_found: (Seq<u8>, u8),
    name: Seq<char>,
    symbol: Seq<char>,
    uri: Seq<char>,
)
    requires
        is_mint_plan(p, ctx, base_balance, balance_found, name, symbol, uri),
        program_address(balance_tag(), ctx.token_account@, ctx.program_id@) == Some(balance_found),
    ensures
        program_address(balance_tag(), p.balance.token_account@, ctx.program_id@) == Some(
            (p.balance_address@, p.balance_bump),
        ),
        p.balance.amount == base_balance,
{
}

/// A mint against an inactive template at the derived address is rejected
/// with `TemplateInactive`, whatever its name, symbol and URI, so nothing is
/// minted and no balance is created.
pub proof fn lemma_inactive_template_mints_nothing(
    name: Seq<char>,
    symbol: Seq<char>,
    uri: Seq<char>,
    template_found: Option<(Seq<u8>, u8)>,
    template_account: Seq<u8>,
    balance_found: Option<(Seq<u8>, u8)>,
)
    requires
        template_found is Some,
        template_found->Some_0.0 == template_account,
    ensures
        mint_rejection(name, symbol, uri, template_found, template_account, false, balance_found)
            == Some(WavexError::TemplateInactive),
{
}

} // verus!
