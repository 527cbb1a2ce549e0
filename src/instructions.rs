use vstd::prelude::*;
use crate::error::WavexError;
use crate::records::{
    byte_len, str_byte_len, Address, Event, ProgramState, Template, NAME_CAPACITY,
    URI_CAPACITY,
};

verus! {

/// The accounts handed to `initialize`: the signer who becomes the authority.
#[derive(Clone, Copy, Debug)]
pub struct Initialize {
    pub authority: Address,
}

/// The accounts handed to `create_template`: the signing creator.
#[derive(Clone, Copy, Debug)]
pub struct CreateTemplate {
    pub authority: Address,
}

/// The accounts handed to `create_event`: the signing creator.
#[derive(Clone, Copy, Debug)]
pub struct CreateEvent {
    pub authority: Address,
}

/// The accounts handed to `mint_nft`: the new mint, the token holding that
/// receives the unit, the template record supplied, the signing authority,
/// and the id of this program (under which addresses are derived).
#[derive(Clone, Copy, Debug)]
pub struct MintNFT {
    pub mint: Address,
    pub token_account: Address,
    pub template: Address,
    pub authority: Address,
    pub program_id: Address,
}

/// The program state that `initialize` creates for an authority.
pub open spec fn initial_state(authority: Address) -> ProgramState {
    ProgramState { authority, template_count: 0, event_count: 0 }
}

/// Creates the program state, with both counters at zero and the signer as
/// authority; fails with `AlreadyInitialized` where it exists already.
pub fn initialize(ctx: &Initialize, existing: &Option<ProgramState>) -> (r: Result<
    ProgramState,
    WavexError,
>)
    ensures
        existing is Some ==> r == Err::<ProgramState, WavexError>(WavexError::AlreadyInitialized),
        existing is None ==> r == Ok::<ProgramState, WavexError>(initial_state(ctx.authority)),
{
    match existing {
        Some(_) => Err(WavexError::AlreadyInitialized),
        None => Ok(ProgramState { authority: ctx.authority, template_count: 0, event_count: 0 }),
    }
}

/// The first check that rejects a new template, if any: discount, then
/// empty name, then the reserved sizes of name and URI, then a full counter.
pub open spec fn template_rejection(
    name: Seq<char>,
    discount: u8,
    metadata_uri: Seq<char>,
    template_count: u64,
) -> Option<WavexError> {
    if discount > 100 {
        Some(WavexError::InvalidDiscount)
    } else if name.len() == 0 {
        Some(WavexError::EmptyName)
    } else if byte_len(name) > NAME_CAPACITY || byte_len(metadata_uri) > URI_CAPACITY {
        Some(WavexError::AllocationError)
    } else if template_count == u64::MAX {
        Some(WavexError::CounterOverflow)
    } else {
        None
    }
}

/// The program state after one more template was created.
pub open spec fn after_template(s: ProgramState) -> ProgramState {
    ProgramState { template_count: (s.template_count + 1) as u64, ..s }
}

/// The program state after one more event was created.
pub open spec fn after_event(s: ProgramState) -> ProgramState {
    ProgramState { event_count: (s.event_count + 1) as u64, ..s }
}

/// A template record holds exactly the given values, active, owned by
/// `authority`.
pub open spec fn is_new_template(
    t: Template,
    authority: Address,
    name: Seq<char>,
    base_balance: u64,
    price: u64,
    discount: u8,
    is_vip: bool,
    metadata_uri: Seq<char>,
) -> bool {
    &&& t.name@ == name
    &&& t.base_balance == base_balance
    &&& t.price == price
    &&& t.discount == discount
    &&& t.is_vip == is_vip
    &&& t.metadata_uri@ == metadata_uri
    &&& t.active
    &&& t.authority == authority
}

/// Creates a template under the next id. On success the result is that id
/// (the template count before the call) and the new record, and the count
/// grows by one; on failure nothing changes.
pub fn create_template(
    ctx: &CreateTemplate,
    program_state: &mut ProgramState,
    name: String,
    base_balance: u64,
    price: u64,
    discount: u8,
    is_vip: bool,
    metadata_uri: String,
) -> (r: Result<(u64, Template), WavexError>)
    ensures
        discount > 100 ==> r == Err::<(u64, Template), WavexError>(WavexError::InvalidDiscount),
        r is Err ==> *final(program_state) == *old(program_state),
        match template_rejection(name@, discount, metadata_uri@, old(program_state).template_count) {
            Some(e) => {
                &&& r == Err::<(u64, Template), WavexError>(e)
                &&& *final(program_state) == *old(program_state)
            },
            None => {
                &&& r is Ok
                &&& r->Ok_0.0 == old(program_state).template_count
                &&& is_new_template(
                    r->Ok_0.1,
                    ctx.authority,
                    name@,
                    base_balance,
                    price,
                    discount,
                    is_vip,
                    metadata_uri@,
                )
                &&& r->Ok_0.1.wf()
                &&& *final(program_state) == after_template(*old(program_state))
            },
        },
{
    if discount > 100 {
        return Err(WavexError::InvalidDiscount);
    }
    if name.as_str().is_empty() {
        return Err(WavexError::EmptyName);
    }
    if str_byte_len(&name) > NAME_CAPACITY || str_byte_len(&metadata_uri) > URI_CAPACITY {
        return Err(WavexError::AllocationError);
    }
    if program_state.template_count == u64::MAX {
        return Err(WavexError::CounterOverflow);
    }
    let id = program_state.template_count;
    program_state.template_count = id + 1;
    let template = Template {
        name,
        base_balance,
        price,
        discount,
        is_vip,
        metadata_uri,
        active: true,
        authority: ctx.authority,
    };
    Ok((id, template))
}

/// The first check that rejects a new event, if any: zero capacity, then
/// empty name, then the reserved size of the name, then a full counter.
pub open spec fn event_rejection(name: Seq<char>, capacity: u32, event_count: u64) -> Option<
    WavexError,
> {
    if capacity == 0 {
        Some(WavexError::InvalidCapacity)
    } else if name.len() == 0 {
        Some(WavexError::EmptyName)
    } else if byte_len(name) > NAME_CAPACITY {
        Some(WavexError::AllocationError)
    } else if event_count == u64::MAX {
        Some(WavexError::CounterOverflow)
    } else {
        None
    }
}

/// An event record holds exactly the given values, active, with nothing
/// sold, owned by `authority`.
pub open spec fn is_new_event(
    e: Event,
    authority: Address,
    name: Seq<char>,
    price: u64,
    capacity: u32,
    event_type: u8,
) -> bool {
    &&& e.name@ == name
    &&& e.price == price
    &&& e.capacity == capacity
    &&& e.sold_count == 0
    &&& e.active
    &&& e.event_type == event_type
    &&& e.authority == authority
}

/// Creates an event under the next id. On success the result is that id
/// (the event count before the call) and the new record, and the count grows
/// by one; on failure nothing changes.
pub fn create_event(
    ctx: &CreateEvent,
    program_state: &mut ProgramState,
    name: String,
    price: u64,
    capacity: u32,
    event_type: u8,
) -> (r: Result<(u64, Event), WavexError>)
    ensures
        capacity == 0 ==> r == Err::<(u64, Event), WavexError>(WavexError::InvalidCapacity),
        r is Err ==> *final(program_state) == *old(program_state),
        match event_rejection(name@, capacity, old(program_state).event_count) {
            Some(e) => {
                &&& r == Err::<(u64, Event), WavexError>(e)
                &&& *final(program_state) == *old(program_state)
            },
            None => {
                &&& r is Ok
                &&& r->Ok_0.0 == old(program_state).event_count
                &&& is_new_event(r->Ok_0.1, ctx.authority, name@, price, capacity, event_type)
                &&& r->Ok_0.1.wf()
                &&& *final(program_state) == after_event(*old(program_state))
            },
        },
{
    if capacity == 0 {
        return Err(WavexError::InvalidCapacity);
    }
    if name.as_str().is_empty() {
        return Err(WavexError::EmptyName);
    }
    if str_byte_len(&name) > NAME_CAPACITY {
        return Err(WavexError::AllocationError);
    }
    if program_state.event_count == u64::MAX {
        return Err(WavexError::CounterOverflow);
    }
    let id = program_state.event_count;
    program_state.event_count = id + 1;
    let event = Event {
        name,
        price,
        capacity,
        sold_count: 0,
        active: true,
        event_type,
        authority: ctx.authority,
    };
    Ok((id, event))
}

/// Switches a template on or off. Only its authority may do so; anyone else
/// gets `NotAuthorized` and the template stays as it was.
pub fn set_template_active(template: &mut Template, signer: &Address, active: bool) -> (r: Result<
    (),
    WavexError,
>)
    ensures
        signer@ != old(template).authority@ ==> {
            &&& r == Err::<(), WavexError>(WavexError::NotAuthorized)
            &&& *final(template) == *old(template)
        },
        signer@ == old(template).authority@ ==> {
            &&& r is Ok
            &&& final(template).active == active
            &&& *final(template) == (Template { active, ..*old(template) })
        },
{
    if !signer.same_as(&template.authority) {
        return Err(WavexError::NotAuthorized);
    }
    template.active = active;
    Ok(())
}

} // verus!
