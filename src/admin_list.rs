//! A roster of admins with a one-way freeze.
//!
//! Admins may forward operations at any time. While the roster is mutable an
//! admin may replace it or freeze it; once frozen it never changes again.
use vstd::prelude::*;

use crate::error::ContractError;
use crate::response::Response;

verus! {

/// The host's answer for one identity string: the validated identity, or
/// the reason it was rejected.
pub type Checked = Result<String, String>;

/// The stored record. `admins` keeps the order in which it was supplied,
/// duplicates included.
#[derive(Debug, Clone, PartialEq, Eq)]
pub struct AdminList {
    pub admins: Vec<String>,
    pub mutable: bool,
}

/// The record as mathematical values.
pub struct AdminListView {
    pub admins: Seq<Seq<char>>,
    pub mutable: bool,
}

impl View for AdminList {
    type V = AdminListView;

    open spec fn view(&self) -> AdminListView {
        AdminListView { admins: names(self.admins@), mutable: self.mutable }
    }
}

pub open spec fn names(v: Seq<String>) -> Seq<Seq<char>> {
    v.map_values(|s: String| s@)
}

pub open spec fn is_admin_spec(v: AdminListView, c: Seq<char>) -> bool {
    v.admins.contains(c)
}

/// Replacing or freezing the roster needs both membership and a mutable
/// roster.
pub open spec fn can_modify_spec(v: AdminListView, c: Seq<char>) -> bool {
    v.mutable && v.admins.contains(c)
}

/// Forwarding operations needs membership alone.
pub open spec fn can_execute_spec(v: AdminListView, c: Seq<char>) -> bool {
    is_admin_spec(v, c)
}

/// The record after `c` freezes it, or `None` where `c` may not.
pub open spec fn freeze_spec(v: AdminListView, c: Seq<char>) -> Option<AdminListView> {
    if can_modify_spec(v, c) {
        Some(AdminListView { admins: v.admins, mutable: false })
    } else {
        None
    }
}

/// The record after `c` replaces the roster by `new`, or `None` where `c`
/// may not.
pub open spec fn update_admins_spec(
    v: AdminListView,
    c: Seq<char>,
    new: Seq<Seq<char>>,
) -> Option<AdminListView> {
    if can_modify_spec(v, c) {
        Some(AdminListView { admins: new, mutable: v.mutable })
    } else {
        None
    }
}

pub open spec fn check_view(c: Checked) -> Result<Seq<char>, Seq<char>> {
    match c {
        Ok(s) => Ok(s@),
        Err(e) => Err(e@),
    }
}

pub open spec fn checks_view(cs: Seq<Checked>) -> Seq<Result<Seq<char>, Seq<char>>> {
    cs.map_values(|c: Checked| check_view(c))
}

/// Every identity was accepted by the host.
pub open spec fn all_valid(cs: Seq<Result<Seq<char>, Seq<char>>>) -> bool {
    forall|i: int| 0 <= i < cs.len() ==> #[trigger] cs[i] is Ok
}

/// The accepted identities, in order.
pub open spec fn valid_values(cs: Seq<Result<Seq<char>, Seq<char>>>) -> Seq<Seq<char>> {
    cs.map_values(
        |c: Result<Seq<char>, Seq<char>>|
            match c {
                Ok(s) => s,
                Err(_) => Seq::empty(),
            },
    )
}

/// Entry `i` is the first one that the host rejected.
pub open spec fn first_invalid(cs: Seq<Result<Seq<char>, Seq<char>>>, i: int) -> bool {
    &&& 0 <= i < cs.len()
    &&& cs[i] is Err
    &&& forall|j: int| 0 <= j < i ==> #[trigger] cs[j] is Ok
}

/// `e` is `InvalidAddress` with the reason `reason`.
pub open spec fn rejected_with(e: ContractError, reason: Seq<char>) -> bool {
    match e {
        ContractError::InvalidAddress { msg } => msg@ == reason,
        _ => false,
    }
}

/// What a failed validation returns: the host's reason for the first
/// rejected entry.
pub open spec fn validation_error(
    cs: Seq<Result<Seq<char>, Seq<char>>>,
    e: ContractError,
) -> bool {
    exists|i: int| #[trigger] first_invalid(cs, i) && rejected_with(e, cs[i]->Err_0)
}

/// Turns the host's answers for a list of identities into the list of
/// validated identities, or the error for the first rejected one.
pub fn map_validate(checked: &Vec<Checked>) -> (r: Result<Vec<String>, ContractError>)
    ensures
        r is Ok <==> all_valid(checks_view(checked@)),
        r matches Ok(v) ==> names(v@) == valid_values(checks_view(checked@)),
        r matches Err(e) ==> validation_error(checks_view(checked@), e),
{
    let ghost cv = checks_view(checked@);
    let mut out: Vec<String> = Vec::new();
    let mut i: usize = 0;
    while i < checked.len()
        invariant
            i <= checked@.len(),
            cv == checks_view(checked@),
            forall|j: int| 0 <= j < i ==> #[trigger] cv[j] is Ok,
            names(out@) == valid_values(cv).take(i as int),
        decreases checked.len() - i,
    {
        match &checked[i] {
            Ok(a) => {
                let ghost prev = out@;
                out.push(a.clone());
                assert(cv[i as int] == check_view(checked@[i as int]));
                assert(names(out@) =~= names(prev).push(a@));
                assert(names(out@) =~= valid_values(cv).take(i + 1));
            },
            Err(e) => {
                let r = Err(ContractError::InvalidAddress { msg: e.clone() });
                assert(first_invalid(cv, i as int));
                return r;
            },
        }
        i += 1;
    }
    assert(valid_values(cv).take(i as int) =~= valid_values(cv));
    Ok(out)
}

/// The execute messages of the roster. `UpdateAdmins` carries the host's
/// answer for each identity of the new roster.
pub enum ExecuteMsg<M> {
    Execute { msgs: Vec<M> },
    Freeze {},
    UpdateAdmins { admins: Vec<Checked> },
}

/// The queries of the roster. The operation in `CanExecute` is not read.
pub enum QueryMsg<M> {
    AdminList {},
    CanExecute { sender: String, msg: M },
}

#[derive(Debug, Clone, PartialEq, Eq)]
pub struct AdminListResponse {
    pub admins: Vec<String>,
    pub mutable: bool,
}

#[derive(Debug, Clone, Copy, PartialEq, Eq)]
pub struct CanExecuteResponse {
    pub can_execute: bool,
}

#[derive(Debug, Clone, PartialEq, Eq)]
pub enum QueryResponse {
    AdminList(AdminListResponse),
    CanExecute(CanExecuteResponse),
}

/// `resp` forwards nothing and carries the single attribute
/// `action = name`.
pub open spec fn plain_action<M>(resp: Response<M>, name: Seq<char>) -> bool {
    &&& resp.messages@.len() == 0
    &&& resp.attrs() == seq![("action"@, name)]
}

/// What forwarding `msgs` on behalf of `sender` returns.
pub open spec fn execute_execute_post<M>(
    cfg: AdminList,
    sender: Seq<char>,
    msgs: Seq<M>,
    r: Result<Response<M>, ContractError>,
) -> bool {
    if can_execute_spec(cfg@, sender) {
        match r {
            Ok(resp) => resp.messages@ == msgs && resp.attrs() == seq![("action"@, "execute"@)],
            Err(_) => false,
        }
    } else {
        r == Err::<Response<M>, ContractError>(ContractError::Unauthorized)
    }
}

/// How a freeze by `sender` takes `pre` to `post`, and what it returns.
pub open spec fn freeze_post<M>(
    pre: AdminList,
    sender: Seq<char>,
    post: AdminList,
    r: Result<Response<M>, ContractError>,
) -> bool {
    match freeze_spec(pre@, sender) {
        Some(v) => post@ == v && match r {
            Ok(resp) => plain_action(resp, "freeze"@),
            Err(_) => false,
        },
        None => post == pre && r == Err::<Response<M>, ContractError>(ContractError::Unauthorized),
    }
}

/// How replacing the roster by the checked identities `cs`, on behalf of
/// `sender`, takes `pre` to `post`, and what it returns. Authorization is
/// decided before the identities are looked at.
pub open spec fn update_admins_post<M>(
    pre: AdminList,
    sender: Seq<char>,
    cs: Seq<Result<Seq<char>, Seq<char>>>,
    post: AdminList,
    r: Result<Response<M>, ContractError>,
) -> bool {
    if !can_modify_spec(pre@, sender) {
        post == pre && r == Err::<Response<M>, ContractError>(ContractError::Unauthorized)
    } else if !all_valid(cs) {
        post == pre && match r {
            Ok(_) => false,
            Err(e) => validation_error(cs, e),
        }
    } else {
        Some(post@) == update_admins_spec(pre@, sender, valid_values(cs)) && match r {
            Ok(resp) => plain_action(resp, "update_admins"@),
            Err(_) => false,
        }
    }
}

impl AdminList {
    /// Whether `addr` is on the roster.
    pub fn is_admin(&self, addr: &String) -> (r: bool)
        ensures
            r == is_admin_spec(self@, addr@),
    {
        let mut i: usize = 0;
        while i < self.admins.len()
            invariant
                i <= self.admins@.len(),
                forall|j: int| 0 <= j < i ==> #[trigger] self.admins@[j]@ != addr@,
            decreases self.admins.len() - i,
        {
            if self.admins[i] == *addr {
                assert(self@.admins[i as int] == addr@);
                return true;
            }
            i += 1;
        }
        assert forall|j: int| 0 <= j < self@.admins.len() implies self@.admins[j] != addr@ by {
            assert(self@.admins[j] == self.admins@[j]@);
        }
        false
    }

    /// Whether `addr` may replace or freeze the roster: it is on the roster
    /// and the roster is mutable.
    pub fn can_modify(&self, addr: &String) -> (r: bool)
        ensures
            r == can_modify_spec(self@, addr@),
            r == (self@.admins.contains(addr@) && self.mutable),
    {
        self.mutable && self.is_admin(addr)
    }
}

/// Creates the record from the host's answers for the initial roster.
pub fn instantiate(admins: &Vec<Checked>, mutable: bool) -> (r: Result<AdminList, ContractError>)
    ensures
        r is Ok <==> all_valid(checks_view(admins@)),
        r matches Ok(cfg) ==> cfg@ == (AdminListView {
            admins: valid_values(checks_view(admins@)),
            mutable,
        }),
        r matches Err(e) ==> validation_error(checks_view(admins@), e),
{
    let admins = map_validate(admins)?;
    Ok(AdminList { admins, mutable })
}

/// Whether `sender` may forward operations: membership alone decides.
pub fn can_execute(cfg: &AdminList, sender: &String) -> (r: bool)
    ensures
        r == can_execute_spec(cfg@, sender@),
{
    cfg.is_admin(sender)
}

/// Forwards `msgs` unchanged and in order when `sender` is an admin.
pub fn execute_execute<M>(cfg: &AdminList, sender: &String, msgs: Vec<M>) -> (r: Result<
    Response<M>,
    ContractError,
>)
    ensures
        execute_execute_post(*cfg, sender@, msgs@, r),
{
    if !can_execute(cfg, sender) {
        Err(ContractError::Unauthorized)
    } else {
        let mut res: Response<M> = Response::with_attribute("action", "execute");
        res.messages = msgs;
        Ok(res)
    }
}

/// Freezes the roster for good when `sender` may modify it.
pub fn execute_freeze<M>(cfg: &mut AdminList, sender: &String) -> (r: Result<
    Response<M>,
    ContractError,
>)
    ensures
        freeze_post(*old(cfg), sender@, *final(cfg), r),
{
    if !cfg.can_modify(sender) {
        Err(ContractError::Unauthorized)
    } else {
        cfg.mutable = false;
        Ok(Response::with_attribute("action", "freeze"))
    }
}

/// Replaces the whole roster when `sender` may modify it and the host
/// accepted every new identity. On any error the record is unchanged.
pub fn execute_update_admins<M>(cfg: &mut AdminList, sender: &String, admins: Vec<Checked>) -> (r:
    Result<Response<M>, ContractError>)
    ensures
        update_admins_post(*old(cfg), sender@, checks_view(admins@), *final(cfg), r),
{
    if !cfg.can_modify(sender) {
        Err(ContractError::Unauthorized)
    } else {
        let validated = map_validate(&admins)?;
        cfg.admins = validated;
        Ok(Response::with_attribute("action", "update_admins"))
    }
}

/// Dispatches an execute message to its operation.
pub fn execute<M>(cfg: &mut AdminList, sender: &String, msg: ExecuteMsg<M>) -> (r: Result<
    Response<M>,
    ContractError,
>)
    ensures
        match msg {
            ExecuteMsg::Execute { msgs } => *final(cfg) == *old(cfg) && execute_execute_post(
                *old(cfg),
                sender@,
                msgs@,
                r,
            ),
            ExecuteMsg::Freeze {  } => freeze_post(*old(cfg), sender@, *final(cfg), r),
            ExecuteMsg::UpdateAdmins { admins } => update_admins_post(
                *old(cfg),
                sender@,
                checks_view(admins@),
                *final(cfg),
                r,
            ),
        },
{
    match msg {
        ExecuteMsg::Execute { msgs } => execute_execute(cfg, sender, msgs),
        ExecuteMsg::Freeze {  } => execute_freeze(cfg, sender),
        ExecuteMsg::UpdateAdmins { admins } => execute_update_admins(cfg, sender, admins),
    }
}

/// The roster, in stored order, and the mutability flag.
pub fn query_admin_list(cfg: &AdminList) -> (r: AdminListResponse)
    ensures
        names(r.admins@) == cfg@.admins,
        r.mutable == cfg.mutable,
{
    AdminListResponse { admins: cfg.admins.clone(), mutable: cfg.mutable }
}

/// Whether `sender` may forward operations; the operation itself is not
/// read.
pub fn query_can_execute<M>(cfg: &AdminList, sender: String, _msg: M) -> (r: CanExecuteResponse)
    ensures
        r.can_execute == can_execute_spec(cfg@, sender@),
{
    CanExecuteResponse { can_execute: can_execute(cfg, &sender) }
}

/// Answers a query.
pub fn query<M>(cfg: &AdminList, msg: QueryMsg<M>) -> (r: QueryResponse)
    ensures
        match msg {
            QueryMsg::AdminList {  } => match r {
                QueryResponse::AdminList(a) => names(a.admins@) == cfg@.admins && a.mutable
                    == cfg.mutable,
                _ => false,
            },
            QueryMsg::CanExecute { sender, msg: _ } => r == QueryResponse::CanExecute(
                CanExecuteResponse { can_execute: can_execute_spec(cfg@, sender@) },
            ),
        },
{
    match msg {
        QueryMsg::AdminList {  } => QueryResponse::AdminList(query_admin_list(cfg)),
        QueryMsg::CanExecute { sender, msg } => QueryResponse::CanExecute(
            query_can_execute(cfg, sender, msg),
        ),
    }
}

/// Freezing is one-way: once a freeze by `c` succeeds, neither a freeze nor
/// a replacement of the roster by any caller `d`, with any new roster, is
/// authorized again.
pub proof fn lemma_freeze_is_final(v: AdminListView, c: Seq<char>, d: Seq<char>, new: Seq<Seq<char>>)
    requires
        freeze_spec(v, c) is Some,
    ensures
        !can_modify_spec(freeze_spec(v, c)->0, d),
        freeze_spec(freeze_spec(v, c)->0, d) is None,
        update_admins_spec(freeze_spec(v, c)->0, d, new) is None,
{
}

/// Replacing the roster takes the new roster exactly as given, whatever the
/// roster was before, and keeps the mutability flag.
pub proof fn lemma_update_replaces_roster(v: AdminListView, c: Seq<char>, new: Seq<Seq<char>>)
    requires
        can_modify_spec(v, c),
    ensures
        update_admins_spec(v, c, new) matches Some(w) && w.admins == new && w.mutable == v.mutable,
{
}

/// Execute rights rest on membership alone: a freeze by anyone leaves every
/// caller's right to forward operations as it was.
pub proof fn lemma_freeze_keeps_execute_rights(v: AdminListView, c: Seq<char>, d: Seq<char>)
    requires
        freeze_spec(v, d) is Some,
    ensures
        can_execute_spec(freeze_spec(v, d)->0, c) == can_execute_spec(v, c),
        can_execute_spec(v, c) == is_admin_spec(v, c),
{
}

} // verus!
