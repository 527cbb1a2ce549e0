use vstd::prelude::*;
use crate::address::{
    balance_address, balance_tag, found_view, le_bytes, program_address, template_address,
    template_tag,
};
use crate::error::WavexError;
use crate::instructions::MintNFT;
use crate::records::{Address, Balance, Template};

verus! {

/// A creator entry of token metadata.
#[derive(Clone, Copy, Debug)]
pub struct Creator {
    pub address: Address,
    pub verified: bool,
    pub share: u8,
}

/// The metadata attached to a minted token (no collection, no uses).
#[derive(Clone, Debug)]
pub struct TokenMetadata {
    pub name: String,
    pub symbol: String,
    pub uri: String,
    pub seller_fee_basis_points: u16,
    pub creators: Vec<Creator>,
}

/// What a successful mint does, all of it or none: mint `amount` units of
/// the token `mint` into the holding `recipient`, attach `metadata`, and
/// store `balance` at `balance_address`, derived with `balance_bump`.
#[derive(Clone, Debug)]
pub struct MintPlan {
    pub mint: Address,
    pub recipient: Address,
    pub amount: u64,
    pub metadata: TokenMetadata,
    pub balance_address: Address,
    pub balance_bump: u8,
    pub balance: Balance,
}

/// The first check that rejects a mint, if any: no template address for the
/// id; a supplied template account other than that address; an inactive
/// template; no balance address for the holding; then an empty name, symbol
/// or URI.
pub open spec fn mint_rejection(
    name: Seq<char>,
    symbol: Seq<char>,
    uri: Seq<char>,
    template_found: Option<(Seq<u8>, u8)>,
    template_account: Seq<u8>,
    template_active: bool,
    balance_found: Option<(Seq<u8>, u8)>,
) -> Option<WavexError> {
    match template_found {
        None => Some(WavexError::DerivationError),
        Some((addr, _)) => if addr != template_account {
            Some(WavexError::TemplateNotFound)
        } else if !template_active {
            Some(WavexError::TemplateInactive)
        } else if balance_found is None {
            Some(WavexError::DerivationError)
        } else if name.len() == 0 {
            Some(WavexError::EmptyName)
        } else if symbol.len() == 0 {
            Some(WavexError::EmptySymbol)
        } else if uri.len() == 0 {
            Some(WavexError::EmptyUri)
        } else {
            None
        },
    }
}

/// The plan mints one unit of the context's mint into its token holding,
/// attaches the given name, symbol and URI with the
/// authority as sole verified creator at a 100 percent share and no seller
/// fee, and seeds a balance of `base_balance` owned by the authority and tied
/// to the holding, at the found balance address.
pub open spec fn is_mint_plan(
    p: MintPlan,
    ctx: MintNFT,
    base_balance: u64,
    balance_found: (Seq<u8>, u8),
    name: Seq<char>,
    symbol: Seq<char>,
    uri: Seq<char>,
) -> bool {
    &&& p.mint == ctx.mint
    &&& p.recipient == ctx.token_account
    &&& p.amount == 1
    &&& p.metadata.name@ == name
    &&& p.metadata.symbol@ == symbol
    &&& p.metadata.uri@ == uri
    &&& p.metadata.seller_fee_basis_points == 0
    &&& p.metadata.creators@ == seq![
        Creator { address: ctx.authority, verified: true, share: 100 },
    ]
    &&& p.balance_address@ == balance_found.0
    &&& p.balance_bump == balance_found.1
    &&& p.balance == (Balance {
        amount: base_balance,
        owner: ctx.authority,
        token_account: ctx.token_account,
    })
}

/// Decides a mint from the derivations already made: `template_found` for
/// the template id, `balance_found` for the token holding.
pub fn plan_mint(
    ctx: &MintNFT,
    template: &Template,
    template_found: Option<(Address, u8)>,
    balance_found: Option<(Address, u8)>,
    name: String,
    symbol: String,
    uri: String,
) -> (r: Result<MintPlan, WavexError>)
    ensures
        match mint_rejection(
            name@,
            symbol@,
            uri@,
            found_view(template_found),
            ctx.template@,
            template.active,
            found_view(balance_found),
        ) {
            Some(e) => r == Err::<MintPlan, WavexError>(e),
            None => {
                &&& r is Ok
                &&& is_mint_plan(
                    r->Ok_0,
                    *ctx,
                    template.base_balance,
                    found_view(balance_found)->Some_0,
                    name@,
                    symbol@,
                    uri@,
                )
            },
        },
{
    let (template_key, _) = match template_found {
        Some(found) => found,
        None => {
            return Err(WavexError::DerivationError);
        },
    };
    if !template_key.same_as(&ctx.template) {
        return Err(WavexError::TemplateNotFound);
    }
    if !template.active {
        return Err(WavexError::TemplateInactive);
    }
    let (balance_key, balance_bump) = match balance_found {
        Some(found) => found,
        None => {
            return Err(WavexError::DerivationError);
        },
    };
    if name.as_str().is_empty() {
        return Err(WavexError::EmptyName);
    }
    if symbol.as_str().is_empty() {
        return Err(WavexError::EmptySymbol);
    }
    if uri.as_str().is_empty() {
        return Err(WavexError::EmptyUri);
    }
    let creators: Vec<Creator> = vec![
        Creator { address: ctx.authority, verified: true, share: 100 },
    ];
    assert(creators@ =~= seq![Creator { address: ctx.authority, verified: true, share: 100 }]);
    let metadata = TokenMetadata { name, symbol, uri, seller_fee_basis_points: 0, creators };
    let balance = Balance {
        amount: template.base_balance,
        owner: ctx.authority,
        token_account: ctx.token_account,
    };
    Ok(
        MintPlan {
            mint: ctx.mint,
            recipient: ctx.token_account,
            amount: 1,
            metadata,
            balance_address: balance_key,
            balance_bump,
            balance,
        },
    )
}

/// Mints one NFT from template `template_id`: derives the template's address
/// and the holding's balance address under the program, then decides as
/// `plan_mint` does. Nothing is created unless the result is `Ok`.
pub fn mint_nft(
    ctx: &MintNFT,
    template: &Template,
    template_id: u64,
    name: String,
    symbol: String,
    uri: String,
) -> (r: Result<MintPlan, WavexError>)
    ensures
        ({
            let template_found = program_address(
                template_tag(),
                le_bytes(template_id as nat, 8),
                ctx.program_id@,
            );
            let balance_found = program_address(
                balance_tag(),
                ctx.token_account@,
                ctx.program_id@,
            );
            match mint_rejection(
                name@,
                symbol@,
                uri@,
                template_found,
                ctx.template@,
                template.active,
                balance_found,
            ) {
                Some(e) => r == Err::<MintPlan, WavexError>(e),
                None => {
                    &&& r is Ok
                    &&& is_mint_plan(
                        r->Ok_0,
                        *ctx,
                        template.base_balance,
                        balance_found->Some_0,
                        name@,
                        symbol@,
                        uri@,
                    )
                },
            }
        }),
{
    let template_found = match template_address(template_id, &ctx.program_id) {
        Ok(found) => Some(found),
        Err(_) => None,
    };
    let balance_found = match balance_address(&ctx.token_account, &ctx.program_id) {
        Ok(found) => Some(found),
        Err(_) => None,
    };
    plan_mint(ctx, template, template_found, balance_found, name, symbol, uri)
}

} // verus!
