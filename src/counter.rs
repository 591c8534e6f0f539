//! A signed counter. Anyone may step it up or down; only the identity that
//! created it may reset it.
//!
//! Stepping past the range of `i32` fails with `Overflow` and leaves the
//! counter as it was.
use vstd::prelude::*;

use crate::error::ContractError;
use crate::response::{Attribute, Response};

verus! {

/// The stored record. `owner` is set at creation and never changes.
#[derive(Debug, Clone, PartialEq, Eq)]
pub struct State {
    pub count: i32,
    pub owner: String,
    pub poll_count: u32,
}

#[derive(Debug, Clone, Copy, PartialEq, Eq)]
pub struct InstantiateMsg {
    pub count: i32,
}

#[derive(Debug, Clone, Copy, PartialEq, Eq)]
pub enum ExecuteMsg {
    Increment {},
    Decrement {},
    Reset { count: i32 },
}

#[derive(Debug, Clone, Copy, PartialEq, Eq)]
pub enum QueryMsg {
    GetCount {},
}

#[derive(Debug, Clone, Copy, PartialEq, Eq)]
pub struct CountResponse {
    pub count: i32,
}

pub open spec fn digit_char(d: nat) -> char {
    if d == 0 {
        '0'
    } else if d == 1 {
        '1'
    } else if d == 2 {
        '2'
    } else if d == 3 {
        '3'
    } else if d == 4 {
        '4'
    } else if d == 5 {
        '5'
    } else if d == 6 {
        '6'
    } else if d == 7 {
        '7'
    } else if d == 8 {
        '8'
    } else {
        '9'
    }
}

/// The decimal digits of `n`, most significant first, without leading
/// zeros.
pub open spec fn digits(n: nat) -> Seq<char>
    decreases n,
{
    if n < 10 {
        seq![digit_char(n)]
    } else {
        digits(n / 10).push(digit_char(n % 10))
    }
}

/// `i` in decimal, with a leading `-` when negative.
pub open spec fn decimal(i: int) -> Seq<char> {
    if i < 0 {
        seq!['-'] + digits((-i) as nat)
    } else {
        digits(i as nat)
    }
}

fn digit_str(d: u32) -> (s: &'static str)
    requires
        d < 10,
    ensures
        s@ == seq![digit_char(d as nat)],
{
    proof {
        reveal_strlit("0");
        reveal_strlit("1");
        reveal_strlit("2");
        reveal_strlit("3");
        reveal_strlit("4");
        reveal_strlit("5");
        reveal_strlit("6");
        reveal_strlit("7");
        reveal_strlit("8");
        reveal_strlit("9");
    }
    if d == 0 {
        "0"
    } else if d == 1 {
        "1"
    } else if d == 2 {
        "2"
    } else if d == 3 {
        "3"
    } else if d == 4 {
        "4"
    } else if d == 5 {
        "5"
    } else if d == 6 {
        "6"
    } else if d == 7 {
        "7"
    } else if d == 8 {
        "8"
    } else {
        "9"
    }
}

fn push_digits(s: &mut String, n: u32)
    ensures
        final(s)@ == old(s)@ + digits(n as nat),
    decreases n,
{
    if n >= 10 {
        push_digits(s, n / 10);
    }
    s.append(digit_str(n % 10));
    assert(s@ =~= old(s)@ + digits(n as nat));
}

/// `i` in decimal, as `i32`'s `to_string` writes it.
pub fn to_decimal(i: i32) -> (r: String)
    ensures
        r@ == decimal(i as int),
{
    let mut s = String::new();
    if i < 0 {
        proof {
            reveal_strlit("-");
        }
        s.append("-");
        let mag: u32 = if i == i32::MIN {
            2147483648u32
        } else {
            (-i) as u32
        };
        push_digits(&mut s, mag);
    } else {
        push_digits(&mut s, i as u32);
    }
    assert(s@ =~= decimal(i as int));
    s
}

/// `resp` forwards nothing and carries the single attribute
/// `method = name`.
pub open spec fn method_only<M>(resp: Response<M>, name: Seq<char>) -> bool {
    &&& resp.messages@.len() == 0
    &&& resp.attrs() == seq![("method"@, name)]
}

/// `post` is `pre` with the count set to `count`.
pub open spec fn with_count(pre: State, post: State, count: int) -> bool {
    &&& post.count == count
    &&& post.owner == pre.owner
    &&& post.poll_count == pre.poll_count
}

/// How a step by `delta` (one up or one down) takes `pre` to `post`, and
/// what it returns under the attribute `name`.
pub open spec fn step_post<M>(
    pre: State,
    delta: int,
    name: Seq<char>,
    post: State,
    r: Result<Response<M>, ContractError>,
) -> bool {
    if i32::MIN <= pre.count + delta <= i32::MAX {
        with_count(pre, post, pre.count + delta) && match r {
            Ok(resp) => method_only(resp, name),
            Err(_) => false,
        }
    } else {
        post == pre && r == Err::<Response<M>, ContractError>(ContractError::Overflow)
    }
}

/// The record after `sender` resets the count to `count`, or `None` where
/// `sender` is not the owner.
pub open spec fn reset_spec(pre: State, sender: Seq<char>, count: i32) -> Option<State> {
    if sender == pre.owner@ {
        Some(State { count, ..pre })
    } else {
        None
    }
}

/// How a reset by `sender` takes `pre` to `post`, and what it returns.
pub open spec fn reset_post<M>(
    pre: State,
    sender: Seq<char>,
    count: i32,
    post: State,
    r: Result<Response<M>, ContractError>,
) -> bool {
    match reset_spec(pre, sender, count) {
        Some(s) => post == s && match r {
            Ok(resp) => method_only(resp, "reset"@),
            Err(_) => false,
        },
        None => post == pre && r == Err::<Response<M>, ContractError>(ContractError::Unauthorized),
    }
}

/// Creates the record: the count given, `sender` as owner, no polls. The
/// response names the method, the owner and the count.
pub fn instantiate<M>(sender: &String, msg: InstantiateMsg) -> (r: (State, Response<M>))
    ensures
        r.0.count == msg.count,
        r.0.owner@ == sender@,
        r.0.poll_count == 0,
        r.1.messages@.len() == 0,
        r.1.attrs() == seq![
            ("method"@, "instantiate"@),
            ("owner"@, sender@),
            ("count"@, decimal(msg.count as int)),
        ],
{
    let state = State { count: msg.count, owner: sender.clone(), poll_count: 0 };
    let count_text = to_decimal(msg.count);
    let attributes = vec![
        Attribute::new("method", "instantiate"),
        Attribute::new("owner", sender.as_str()),
        Attribute { key: String::from_str("count"), value: count_text },
    ];
    let res: Response<M> = Response { messages: Vec::new(), attributes };
    assert(res.attrs() =~= seq![
        ("method"@, "instantiate"@),
        ("owner"@, sender@),
        ("count"@, decimal(msg.count as int)),
    ]);
    (state, res)
}

/// Steps the count up by one; anyone may call it.
pub fn try_increment<M>(state: &mut State) -> (r: Result<Response<M>, ContractError>)
    ensures
        step_post(*old(state), 1, "try_increment"@, *final(state), r),
{
    if state.count == i32::MAX {
        return Err(ContractError::Overflow);
    }
    state.count = state.count + 1;
    Ok(Response::with_attribute("method", "try_increment"))
}

/// Steps the count down by one; anyone may call it.
pub fn try_decrement<M>(state: &mut State) -> (r: Result<Response<M>, ContractError>)
    ensures
        step_post(*old(state), -1, "try_decrement"@, *final(state), r),
{
    if state.count == i32::MIN {
        return Err(ContractError::Overflow);
    }
    state.count = state.count - 1;
    Ok(Response::with_attribute("method", "try_decrement"))
}

/// Sets the count to `count` when `sender` is the owner.
pub fn try_reset<M>(state: &mut State, sender: &String, count: i32) -> (r: Result<
    Response<M>,
    ContractError,
>)
    ensures
        reset_post(*old(state), sender@, count, *final(state), r),
{
    if *sender != state.owner {
        return Err(ContractError::Unauthorized);
    }
    state.count = count;
    Ok(Response::with_attribute("method", "reset"))
}

/// Dispatches an execute message to its operation.
pub fn execute<M>(state: &mut State, sender: &String, msg: ExecuteMsg) -> (r: Result<
    Response<M>,
    ContractError,
>)
    ensures
        match msg {
            ExecuteMsg::Increment {  } => step_post(
                *old(state),
                1,
                "try_increment"@,
                *final(state),
                r,
            ),
            ExecuteMsg::Decrement {  } => step_post(
                *old(state),
                -1,
                "try_decrement"@,
                *final(state),
                r,
            ),
            ExecuteMsg::Reset { count } => reset_post(*old(state), sender@, count, *final(state), r),
        },
{
    match msg {
        ExecuteMsg::Increment {  } => try_increment(state),
        ExecuteMsg::Decrement {  } => try_decrement(state),
        ExecuteMsg::Reset { count } => try_reset(state, sender, count),
    }
}

/// The current count.
pub fn query_count(state: &State) -> (r: CountResponse)
    ensures
        r.count == state.count,
{
    CountResponse { count: state.count }
}

/// Answers a query.
pub fn query(state: &State, msg: QueryMsg) -> (r: CountResponse)
    ensures
        match msg {
            QueryMsg::GetCount {  } => r.count == state.count,
        },
{
    match msg {
        QueryMsg::GetCount {  } => query_count(state),
    }
}

/// Only the owner may reset: a reset by anyone else is refused, and one by
/// the owner sets the count to the value given and touches nothing else.
pub proof fn lemma_reset_owner_only(pre: State, sender: Seq<char>, count: i32)
    ensures
        sender != pre.owner@ ==> reset_spec(pre, sender, count) is None,
        sender == pre.owner@ ==> (reset_spec(pre, sender, count) matches Some(s) && with_count(
            pre,
            s,
            count as int,
        )),
{
}

/// Stepping up and stepping down are exact and take no caller: within the
/// range of `i32` each changes the count by exactly one and leaves the owner
/// and the poll count alone.
pub proof fn lemma_steps_are_exact<M>(
    pre: State,
    up: State,
    down: State,
    ru: Result<Response<M>, ContractError>,
    rd: Result<Response<M>, ContractError>,
)
    requires
        i32::MIN < pre.count < i32::MAX,
        step_post(pre, 1, "try_increment"@, up, ru),
        step_post(pre, -1, "try_decrement"@, down, rd),
    ensures
        ru is Ok && up.count == pre.count + 1 && up.owner == pre.owner && up.poll_count
            == pre.poll_count,
        rd is Ok && down.count == pre.count - 1 && down.owner == pre.owner && down.poll_count
            == pre.poll_count,
{
}

} // verus!
