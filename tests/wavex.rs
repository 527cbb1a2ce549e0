use anchor_lang::solana_program::pubkey::Pubkey;
use wavex_nft::address::{balance_address, derive_address, template_address, u64_le_bytes};
use wavex_nft::error::WavexError;
use wavex_nft::instructions::{
    create_event, create_template, initialize, set_template_active, CreateEvent, CreateTemplate,
    Initialize, MintNFT,
};
use wavex_nft::mint::{mint_nft, plan_mint};
use wavex_nft::records::{
    record_size, str_byte_len, Address, Balance, Event, ProgramState, RecordKind, Template,
};

fn addr(b: u8) -> Address {
    Address { bytes: [b; 32] }
}

fn program_id() -> Address {
    addr(7)
}

fn fresh_state() -> ProgramState {
    initialize(&Initialize { authority: addr(1) }, &None).unwrap()
}

fn new_template(state: &mut ProgramState, active: bool, base_balance: u64) -> (u64, Template) {
    let ctx = CreateTemplate { authority: addr(1) };
    let (id, mut t) = create_template(
        &ctx,
        state,
        "Gold".to_string(),
        base_balance,
        100,
        10,
        false,
        "uri://gold".to_string(),
    )
    .unwrap();
    t.active = active;
    (id, t)
}

fn mint_ctx(template_id: u64, holding: Address) -> MintNFT {
    let (template, _) = template_address(template_id, &program_id()).unwrap();
    MintNFT { mint: addr(3), token_account: holding, template, authority: addr(1), program_id: program_id() }
}

#[test]
fn initialize_sets_zero_counts() {
    let s = fresh_state();
    assert_eq!(s.template_count, 0);
    assert_eq!(s.event_count, 0);
    assert_eq!(s.authority.bytes, [1u8; 32]);
}

#[test]
fn initialize_twice_is_rejected() {
    let s = fresh_state();
    let r = initialize(&Initialize { authority: addr(2) }, &Some(s));
    assert_eq!(r.unwrap_err(), WavexError::AlreadyInitialized);
}

#[test]
fn gold_scenario() {
    let mut state = fresh_state();
    let ctx = CreateTemplate { authority: addr(1) };
    let (id, t) = create_template(
        &ctx,
        &mut state,
        "Gold".to_string(),
        500,
        100,
        10,
        false,
        "uri://gold".to_string(),
    )
    .unwrap();
    assert_eq!(id, 0);
    assert_eq!(t.name, "Gold");
    assert_eq!(t.base_balance, 500);
    assert_eq!(t.price, 100);
    assert_eq!(t.discount, 10);
    assert!(!t.is_vip);
    assert_eq!(t.metadata_uri, "uri://gold");
    assert!(t.active);
    assert_eq!(t.authority.bytes, [1u8; 32]);
    assert_eq!(state.template_count, 1);

    let holding = addr(9);
    let plan = mint_nft(
        &mint_ctx(0, holding),
        &t,
        0,
        "GoldNFT".to_string(),
        "GLD".to_string(),
        "uri://token/1".to_string(),
    )
    .unwrap();
    assert_eq!(plan.balance.amount, 500);
    assert_eq!(plan.amount, 1);
    assert_eq!(plan.metadata.name, "GoldNFT");
    assert_eq!(plan.metadata.symbol, "GLD");
    assert_eq!(plan.metadata.uri, "uri://token/1");
}

#[test]
fn discount_over_hundred_is_rejected_without_change() {
    for discount in [101u8, 150, 255] {
        let mut state = fresh_state();
        let before = state;
        let r = create_template(
            &CreateTemplate { authority: addr(1) },
            &mut state,
            "Gold".to_string(),
            500,
            100,
            discount,
            false,
            "uri://gold".to_string(),
        );
        assert_eq!(r.unwrap_err(), WavexError::InvalidDiscount);
        assert_eq!(state.template_count, before.template_count);
        assert_eq!(state.event_count, before.event_count);
    }
}

#[test]
fn discount_of_hundred_is_accepted() {
    let mut state = fresh_state();
    let r = create_template(
        &CreateTemplate { authority: addr(1) },
        &mut state,
        "Full".to_string(),
        1,
        1,
        100,
        true,
        String::new(),
    );
    assert_eq!(r.unwrap().1.discount, 100);
}

#[test]
fn empty_template_name_is_rejected() {
    let mut state = fresh_state();
    let r = create_template(
        &CreateTemplate { authority: addr(1) },
        &mut state,
        String::new(),
        500,
        100,
        10,
        false,
        "uri://gold".to_string(),
    );
    assert_eq!(r.unwrap_err(), WavexError::EmptyName);
    assert_eq!(state.template_count, 0);
}

#[test]
fn oversized_template_strings_are_rejected() {
    let mut state = fresh_state();
    let ctx = CreateTemplate { authority: addr(1) };
    let long_name = "n".repeat(33);
    let r = create_template(&ctx, &mut state, long_name, 1, 1, 1, false, "u".to_string());
    assert_eq!(r.unwrap_err(), WavexError::AllocationError);
    let long_uri = "u".repeat(65);
    let r = create_template(&ctx, &mut state, "N".to_string(), 1, 1, 1, false, long_uri);
    assert_eq!(r.unwrap_err(), WavexError::AllocationError);
    let r = create_template(&ctx, &mut state, "n".repeat(32), 1, 1, 1, false, "u".repeat(64));
    assert!(r.is_ok());
    assert_eq!(state.template_count, 1);
}

#[test]
fn name_capacity_counts_bytes() {
    assert_eq!(str_byte_len(&"é".to_string()), 2);
    let mut state = fresh_state();
    let r = create_template(
        &CreateTemplate { authority: addr(1) },
        &mut state,
        "é".repeat(17),
        1,
        1,
        1,
        false,
        String::new(),
    );
    assert_eq!(r.unwrap_err(), WavexError::AllocationError);
}

#[test]
fn template_ids_are_sequential() {
    let mut state = fresh_state();
    for n in 0..5u64 {
        let (id, _) = new_template(&mut state, true, 10);
        assert_eq!(id, n);
    }
    assert_eq!(state.template_count, 5);
    let mut seen: Vec<[u8; 32]> = Vec::new();
    for id in 0..5u64 {
        let (a, _) = template_address(id, &program_id()).unwrap();
        assert!(!seen.contains(&a.bytes));
        seen.push(a.bytes);
    }
}

#[test]
fn zero_capacity_event_is_rejected() {
    let mut state = fresh_state();
    let r = create_event(&CreateEvent { authority: addr(1) }, &mut state, "Gig".to_string(), 5, 0, 1);
    assert_eq!(r.unwrap_err(), WavexError::InvalidCapacity);
    assert_eq!(state.event_count, 0);
    assert_eq!(state.template_count, 0);
}

#[test]
fn event_is_created_with_nothing_sold() {
    let mut state = fresh_state();
    let ctx = CreateEvent { authority: addr(4) };
    let (id, e): (u64, Event) = create_event(&ctx, &mut state, "Gig".to_string(), 5, 20, 2).unwrap();
    assert_eq!(id, 0);
    assert_eq!(e.name, "Gig");
    assert_eq!(e.price, 5);
    assert_eq!(e.capacity, 20);
    assert_eq!(e.sold_count, 0);
    assert!(e.active);
    assert_eq!(e.event_type, 2);
    assert_eq!(e.authority.bytes, [4u8; 32]);
    assert_eq!(state.event_count, 1);
    let (id2, _) = create_event(&ctx, &mut state, "Gig 2".to_string(), 5, 1, 2).unwrap();
    assert_eq!(id2, 1);
    assert_eq!(state.event_count, 2);
}

#[test]
fn empty_event_name_is_rejected() {
    let mut state = fresh_state();
    let r = create_event(&CreateEvent { authority: addr(1) }, &mut state, String::new(), 5, 3, 1);
    assert_eq!(r.unwrap_err(), WavexError::EmptyName);
    let r = create_event(&CreateEvent { authority: addr(1) }, &mut state, "x".repeat(33), 5, 3, 1);
    assert_eq!(r.unwrap_err(), WavexError::AllocationError);
    assert_eq!(state.event_count, 0);
}

#[test]
fn only_the_authority_toggles_a_template() {
    let mut state = fresh_state();
    let (_, mut t) = new_template(&mut state, true, 10);
    assert_eq!(set_template_active(&mut t, &addr(2), false).unwrap_err(), WavexError::NotAuthorized);
    assert!(t.active);
    set_template_active(&mut t, &addr(1), false).unwrap();
    assert!(!t.active);
}

#[test]
fn inactive_template_mints_nothing() {
    let mut state = fresh_state();
    let (id, t) = new_template(&mut state, false, 1000);
    let r = mint_nft(&mint_ctx(id, addr(9)), &t, id, "N".to_string(), "S".to_string(), "U".to_string());
    assert_eq!(r.unwrap_err(), WavexError::TemplateInactive);
}

#[test]
fn active_template_seeds_balance() {
    let mut state = fresh_state();
    let (id, t) = new_template(&mut state, true, 1000);
    let holding = addr(9);
    let ctx = mint_ctx(id, holding);
    let plan = mint_nft(&ctx, &t, id, "N".to_string(), "S".to_string(), "U".to_string()).unwrap();
    let (expected, bump) = balance_address(&holding, &program_id()).unwrap();
    let b: Balance = plan.balance;
    assert_eq!(b.amount, 1000);
    assert_eq!(b.owner.bytes, [1u8; 32]);
    assert_eq!(b.token_account.bytes, holding.bytes);
    assert_eq!(plan.balance_address.bytes, expected.bytes);
    assert_eq!(plan.mint.bytes, [3u8; 32]);
    assert_eq!(plan.recipient.bytes, holding.bytes);
    assert_eq!(plan.balance_bump, bump);
    assert_eq!(plan.metadata.seller_fee_basis_points, 0);
    assert_eq!(plan.metadata.creators.len(), 1);
    assert_eq!(plan.metadata.creators[0].address.bytes, [1u8; 32]);
    assert!(plan.metadata.creators[0].verified);
    assert_eq!(plan.metadata.creators[0].share, 100);
}

#[test]
fn mint_rejects_empty_strings_in_order() {
    let mut state = fresh_state();
    let (id, t) = new_template(&mut state, true, 1);
    let ctx = mint_ctx(id, addr(9));
    let r = mint_nft(&ctx, &t, id, String::new(), String::new(), String::new());
    assert_eq!(r.unwrap_err(), WavexError::EmptyName);
    let r = mint_nft(&ctx, &t, id, "N".to_string(), String::new(), String::new());
    assert_eq!(r.unwrap_err(), WavexError::EmptySymbol);
    let r = mint_nft(&ctx, &t, id, "N".to_string(), "S".to_string(), String::new());
    assert_eq!(r.unwrap_err(), WavexError::EmptyUri);
}

#[test]
fn mint_with_wrong_template_account_is_rejected() {
    let mut state = fresh_state();
    let (id, t) = new_template(&mut state, true, 1);
    let mut ctx = mint_ctx(id, addr(9));
    ctx.template = addr(5);
    let r = mint_nft(&ctx, &t, id, "N".to_string(), "S".to_string(), "U".to_string());
    assert_eq!(r.unwrap_err(), WavexError::TemplateNotFound);
    let ctx = mint_ctx(id + 1, addr(9));
    let r = mint_nft(&ctx, &t, id, "N".to_string(), "S".to_string(), "U".to_string());
    assert_eq!(r.unwrap_err(), WavexError::TemplateNotFound);
}

#[test]
fn plan_mint_reports_missing_derivations() {
    let mut state = fresh_state();
    let (_, t) = new_template(&mut state, true, 1);
    let ctx = MintNFT { mint: addr(3), token_account: addr(9), template: addr(5), authority: addr(1), program_id: program_id() };
    let r = plan_mint(&ctx, &t, None, Some((addr(6), 1)), "N".to_string(), "S".to_string(), "U".to_string());
    assert_eq!(r.unwrap_err(), WavexError::DerivationError);
    let r = plan_mint(&ctx, &t, Some((addr(5), 2)), None, "N".to_string(), "S".to_string(), "U".to_string());
    assert_eq!(r.unwrap_err(), WavexError::DerivationError);
    let plan = plan_mint(&ctx, &t, Some((addr(5), 2)), Some((addr(6), 1)), "N".to_string(), "S".to_string(), "U".to_string()).unwrap();
    assert_eq!(plan.balance_address.bytes, [6u8; 32]);
    assert_eq!(plan.balance_bump, 1);
}

#[test]
fn balance_derivation_is_deterministic_and_distinct() {
    let a = balance_address(&addr(10), &program_id()).unwrap();
    let a2 = balance_address(&addr(10), &program_id()).unwrap();
    let b = balance_address(&addr(11), &program_id()).unwrap();
    assert_eq!(a.0.bytes, a2.0.bytes);
    assert_eq!(a.1, a2.1);
    assert_ne!(a.0.bytes, b.0.bytes);
}

#[test]
fn derivation_matches_the_runtime() {
    let program = Pubkey::new_from_array(program_id().bytes);
    let holding = addr(12);
    let (key, bump) = Pubkey::find_program_address(&[b"balance", &holding.bytes], &program);
    let (a, b) = balance_address(&holding, &program_id()).unwrap();
    assert_eq!(a.bytes, key.to_bytes());
    assert_eq!(b, bump);
    assert_ne!(a.bytes, holding.bytes);
    let (key, bump) = Pubkey::find_program_address(&[b"template", &3u64.to_le_bytes()], &program);
    let (a, b) = template_address(3, &program_id()).unwrap();
    assert_eq!(a.bytes, key.to_bytes());
    assert_eq!(b, bump);
}

#[test]
fn oversized_seed_has_no_address() {
    let long = [0u8; 33];
    assert_eq!(derive_address(b"balance", &long, &program_id()).unwrap_err(), WavexError::DerivationError);
}

#[test]
fn le_bytes_of_id() {
    assert_eq!(u64_le_bytes(0x0102030405060708), vec![8, 7, 6, 5, 4, 3, 2, 1]);
    assert_eq!(u64_le_bytes(0), vec![0; 8]);
    assert_eq!(u64_le_bytes(u64::MAX), vec![255; 8]);
}

#[test]
fn record_sizes() {
    assert_eq!(record_size(RecordKind::ProgramState), 56);
    assert_eq!(record_size(RecordKind::Template), 163);
    assert_eq!(record_size(RecordKind::Event), 94);
    assert_eq!(record_size(RecordKind::Balance), 80);
    assert_eq!(ProgramState::LEN, 56);
    assert_eq!(Template::LEN, 163);
    assert_eq!(Event::LEN, 94);
    assert_eq!(Balance::LEN, 80);
}

#[test]
fn error_messages() {
    assert_eq!(WavexError::InvalidDiscount.message(), "Invalid discount percentage");
    assert_eq!(WavexError::TemplateInactive.message(), "Template is inactive");
    assert_eq!(WavexError::NotAuthorized.message(), "Not authorized");
    assert_eq!(WavexError::CounterOverflow.message(), "Record counter overflow");
}

#[test]
fn zero_capacity_wins_over_empty_name() {
    let mut state = fresh_state();
    let r = create_event(&CreateEvent { authority: addr(1) }, &mut state, String::new(), 5, 0, 1);
    assert_eq!(r.unwrap_err(), WavexError::InvalidCapacity);
    assert_eq!(state.event_count, 0);
}

#[test]
fn discount_wins_over_empty_name() {
    let mut state = fresh_state();
    let r = create_template(
        &CreateTemplate { authority: addr(1) },
        &mut state,
        String::new(),
        1,
        1,
        101,
        false,
        String::new(),
    );
    assert_eq!(r.unwrap_err(), WavexError::InvalidDiscount);
}

#[test]
fn inactive_template_wins_over_empty_strings() {
    let mut state = fresh_state();
    let (id, t) = new_template(&mut state, false, 1000);
    let r = mint_nft(&mint_ctx(id, addr(9)), &t, id, String::new(), String::new(), String::new());
    assert_eq!(r.unwrap_err(), WavexError::TemplateInactive);
}

#[test]
fn wrong_template_account_wins_over_empty_strings() {
    let mut state = fresh_state();
    let (id, t) = new_template(&mut state, true, 1);
    let mut ctx = mint_ctx(id, addr(9));
    ctx.template = addr(5);
    let r = mint_nft(&ctx, &t, id, String::new(), "S".to_string(), "U".to_string());
    assert_eq!(r.unwrap_err(), WavexError::TemplateNotFound);
}

#[test]
fn full_counters_are_rejected_without_change() {
    let mut state = ProgramState { authority: addr(1), template_count: u64::MAX, event_count: u64::MAX };
    let r = create_template(
        &CreateTemplate { authority: addr(1) },
        &mut state,
        "Gold".to_string(),
        1,
        1,
        1,
        false,
        String::new(),
    );
    assert_eq!(r.unwrap_err(), WavexError::CounterOverflow);
    let r = create_event(&CreateEvent { authority: addr(1) }, &mut state, "Gig".to_string(), 1, 1, 1);
    assert_eq!(r.unwrap_err(), WavexError::CounterOverflow);
    assert_eq!(state.template_count, u64::MAX);
    assert_eq!(state.event_count, u64::MAX);
}
