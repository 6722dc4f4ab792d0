//! The accounts and the one that is active.
//!
//! The manager owns the accounts. No two of them share an id, and the
//! active account, if there is one, is one of them. Network calls and the
//! stores for machine identities and for the accounts themselves belong to
//! the caller: the manager hands out sessions and takes results back.

use vstd::prelude::*;
use vstd::string::*;
use vstd::utf8::encode_utf8;
use crate::client::{ClientView, TraeApiClient};
use crate::cookie::{sanitize, sanitized};
use crate::text::{copy_text, same_text, text_view};
use crate::region::{detect_api_base_from_cookies, region_of, RegionEndpoint};
use crate::token::{claims_of, parse_jwt_token, TokenError};
use crate::usage::{UsageSummary, UsageSummaryView};

verus! {

/// One account.
#[derive(Debug, Clone)]
pub struct Account {
    /// The identity of the account; opaque.
    pub id: String,
    /// The label under which the account is shown.
    pub name: String,
    /// The cookie string, cleaned.
    pub cookies: Option<String>,
    /// The bearer token.
    pub jwt_token: Option<String>,
    /// The endpoint that serves the account.
    pub region: RegionEndpoint,
    /// The machine identity that the account is bound to.
    pub machine_id: Option<String>,
    /// The summary that was computed last; it may be stale.
    pub usage: Option<UsageSummary>,
}

/// An account as mathematics.
pub struct AccountView {
    pub id: Seq<char>,
    pub name: Seq<char>,
    pub cookies: Option<Seq<char>>,
    pub jwt_token: Option<Seq<char>>,
    pub region: RegionEndpoint,
    pub machine_id: Option<Seq<char>>,
    pub usage: Option<UsageSummaryView>,
}

/// The view of a summary that may be absent.
pub open spec fn usage_view(usage: Option<UsageSummary>) -> Option<UsageSummaryView> {
    match usage {
        Some(summary) => Some(summary@),
        None => None,
    }
}

impl View for Account {
    type V = AccountView;

    open spec fn view(&self) -> AccountView {
        AccountView {
            id: self.id@,
            name: self.name@,
            cookies: text_view(self.cookies),
            jwt_token: text_view(self.jwt_token),
            region: self.region,
            machine_id: text_view(self.machine_id),
            usage: usage_view(self.usage),
        }
    }
}

/// What a list of accounts shows of one account.
#[derive(Debug, Clone)]
pub struct AccountBrief {
    pub id: String,
    pub name: String,
    pub is_active: bool,
}

/// A brief as mathematics.
pub struct AccountBriefView {
    pub id: Seq<char>,
    pub name: Seq<char>,
    pub is_active: bool,
}

impl View for AccountBrief {
    type V = AccountBriefView;

    open spec fn view(&self) -> AccountBriefView {
        AccountBriefView { id: self.id@, name: self.name@, is_active: self.is_active }
    }
}

/// Why an operation of the manager failed.
#[derive(Clone, Copy, PartialEq, Eq, Debug, Structural)]
pub enum ManagerError {
    /// No account has the id.
    NotFound,
    /// The token gives no claims.
    Token(TokenError),
    /// An account has the id already.
    DuplicateId,
}

/// The accounts and the active one.
pub struct AccountManager {
    accounts: Vec<Account>,
    active: Option<String>,
}

/// The manager as mathematics.
pub struct ManagerView {
    pub accounts: Seq<AccountView>,
    pub active: Option<Seq<char>>,
}

/// The views of a list of accounts.
pub open spec fn account_views(accounts: Seq<Account>) -> Seq<AccountView> {
    accounts.map_values(|account: Account| account@)
}

/// The views of a list of briefs.
pub open spec fn brief_views(briefs: Seq<AccountBrief>) -> Seq<AccountBriefView> {
    briefs.map_values(|brief: AccountBrief| brief@)
}

impl View for AccountManager {
    type V = ManagerView;

    closed spec fn view(&self) -> ManagerView {
        ManagerView { accounts: account_views(self.accounts@), active: text_view(self.active) }
    }
}

/// The id of the account at a place of the list.
pub open spec fn id_at(accounts: Seq<AccountView>, at: int) -> Seq<char> {
    accounts[at].id
}

/// The account has a cookie string or a bearer token.
pub open spec fn has_credentials(account: AccountView) -> bool {
    account.cookies is Some || account.jwt_token is Some
}

/// The account at a place of the list has a credential.
pub open spec fn credentials_at(accounts: Seq<AccountView>, at: int) -> bool {
    has_credentials(accounts[at])
}

/// Every account of the list has a credential.
pub open spec fn all_have_credentials(accounts: Seq<AccountView>) -> bool {
    forall|i: int| 0 <= i < accounts.len() ==> #[trigger] credentials_at(accounts, i)
}

/// Some account of the list has the id.
pub open spec fn holds(accounts: Seq<AccountView>, id: Seq<char>) -> bool {
    exists|i: int| 0 <= i < accounts.len() && #[trigger] id_at(accounts, i) == id
}

/// The place of the first account with the id.
pub open spec fn position_of(accounts: Seq<AccountView>, id: Seq<char>) -> int {
    choose|i: int|
        0 <= i < accounts.len() && #[trigger] id_at(accounts, i) == id && forall|j: int|
            0 <= j < i ==> #[trigger] id_at(accounts, j) != id
}

/// No two accounts of the list share an id.
pub open spec fn unique_ids(accounts: Seq<AccountView>) -> bool {
    forall|i: int, j: int|
        0 <= i < j < accounts.len() ==> #[trigger] id_at(accounts, i) != #[trigger] id_at(
            accounts,
            j,
        )
}

/// The account that is made for a token, a label and an optional cookie
/// string. The cookie string is cleaned; the region is the one that it
/// selects, and Singapore without one.
pub open spec fn new_account(
    id: Seq<char>,
    name: Seq<char>,
    token: Seq<char>,
    cookies: Option<Seq<char>>,
) -> AccountView {
    AccountView {
        id,
        name,
        cookies: match cookies {
            Some(text) => Some(sanitized(text)),
            None => None,
        },
        jwt_token: Some(token),
        region: match cookies {
            Some(text) => region_of(sanitized(text)),
            None => RegionEndpoint::Sg,
        },
        machine_id: None,
        usage: None,
    }
}

/// The list after the accounts of `incoming` were taken in, in their
/// order, but for those whose id was there already and those without a
/// credential.
pub open spec fn merged(accounts: Seq<AccountView>, incoming: Seq<AccountView>) -> Seq<AccountView>
    decreases incoming.len(),
{
    if incoming.len() == 0 {
        accounts
    } else {
        let before = merged(accounts, incoming.drop_last());
        if holds(before, incoming.last().id) || !has_credentials(incoming.last()) {
            before
        } else {
            before.push(incoming.last())
        }
    }
}

impl ManagerView {
    /// The manager's invariant: ids are unique, every account has a
    /// credential, and the active account is one of the accounts.
    pub open spec fn wf(self) -> bool {
        &&& unique_ids(self.accounts)
        &&& all_have_credentials(self.accounts)
        &&& self.active matches Some(id) ==> holds(self.accounts, id)
    }

    /// The manager with the account at `at` replaced.
    pub open spec fn with_account(self, at: int, account: AccountView) -> ManagerView {
        ManagerView { accounts: self.accounts.update(at, account), active: self.active }
    }

    /// What a list shows of the account at `at`.
    pub open spec fn brief(self, at: int) -> AccountBriefView {
        AccountBriefView {
            id: self.accounts[at].id,
            name: self.accounts[at].name,
            is_active: self.active == Some(self.accounts[at].id),
        }
    }

    /// What a list shows of all accounts.
    pub open spec fn briefs(self) -> Seq<AccountBriefView> {
        Seq::new(self.accounts.len(), |at: int| self.brief(at))
    }

    /// The session of an account.
    pub open spec fn session(self, at: int) -> ClientView {
        ClientView {
            cookies: match self.accounts[at].cookies {
                Some(text) => text,
                None => Seq::<char>::empty(),
            },
            jwt_token: self.accounts[at].jwt_token,
            api_base: self.accounts[at].region,
        }
    }
}

/// The place of an id is the place of an account with that id, and the
/// first such place.
pub proof fn lemma_position(accounts: Seq<AccountView>, id: Seq<char>)
    requires
        holds(accounts, id),
    ensures
        0 <= position_of(accounts, id) < accounts.len(),
        accounts[position_of(accounts, id)].id == id,
        forall|j: int| 0 <= j < position_of(accounts, id) ==> #[trigger] id_at(accounts, j) != id,
{
    let some = choose|i: int| 0 <= i < accounts.len() && #[trigger] id_at(accounts, i) == id;
    lemma_first_place(accounts, id, some);
}

/// Below a place with the id there is a first place with the id.
proof fn lemma_first_place(accounts: Seq<AccountView>, id: Seq<char>, at: int)
    requires
        0 <= at < accounts.len(),
        id_at(accounts, at) == id,
    ensures
        exists|i: int|
            0 <= i < accounts.len() && #[trigger] id_at(accounts, i) == id && forall|j: int|
                0 <= j < i ==> #[trigger] id_at(accounts, j) != id,
    decreases at,
{
    if exists|j: int| 0 <= j < at && #[trigger] id_at(accounts, j) == id {
        let j = choose|j: int| 0 <= j < at && #[trigger] id_at(accounts, j) == id;
        lemma_first_place(accounts, id, j);
    } else {
        assert(id_at(accounts, at) == id && forall|j: int|
            0 <= j < at ==> #[trigger] id_at(accounts, j) != id);
    }
}

/// Where ids are unique, an account with the id stands at the place of the id.
pub proof fn lemma_place_is_position(accounts: Seq<AccountView>, at: int)
    requires
        0 <= at < accounts.len(),
        unique_ids(accounts),
    ensures
        holds(accounts, accounts[at].id),
        position_of(accounts, accounts[at].id) == at,
{
    let id = accounts[at].id;
    assert(id_at(accounts, at) == id);
    lemma_position(accounts, id);
    let first = position_of(accounts, id);
    assert(id_at(accounts, first) == id);
    if first < at {
        assert(id_at(accounts, first) != id_at(accounts, at));
    } else if at < first {
        assert(id_at(accounts, at) != id_at(accounts, first));
    }
}

/// An account with a new id may join the list.
pub proof fn lemma_push_keeps_wf(manager: ManagerView, account: AccountView)
    requires
        manager.wf(),
        !holds(manager.accounts, account.id),
        has_credentials(account),
    ensures
        (ManagerView { accounts: manager.accounts.push(account), active: manager.active }).wf(),
{
    let after = manager.accounts.push(account);
    assert forall|i: int| 0 <= i < after.len() implies #[trigger] credentials_at(after, i) by {
        if i < manager.accounts.len() {
            assert(credentials_at(manager.accounts, i));
        }
    }
    assert forall|i: int, j: int| 0 <= i < j < after.len() implies #[trigger] id_at(after, i)
        != #[trigger] id_at(after, j) by {
        if j == manager.accounts.len() {
            assert(id_at(manager.accounts, i) != account.id);
        } else {
            assert(id_at(manager.accounts, i) != id_at(manager.accounts, j));
        }
    }
    if let Some(active) = manager.active {
        let at = choose|i: int|
            0 <= i < manager.accounts.len() && #[trigger] id_at(manager.accounts, i) == active;
        assert(id_at(after, at) == active);
    }
}

/// An account may leave the list; if it was the active one, none is
/// active afterwards. Its id is then free.
pub proof fn lemma_remove_keeps_wf(manager: ManagerView, at: int)
    requires
        manager.wf(),
        0 <= at < manager.accounts.len(),
    ensures
        (ManagerView {
            accounts: manager.accounts.remove(at),
            active: if manager.active == Some(manager.accounts[at].id) {
                None
            } else {
                manager.active
            },
        }).wf(),
        !holds(manager.accounts.remove(at), manager.accounts[at].id),
{
    let before = manager.accounts;
    let after = before.remove(at);
    let id = before[at].id;
    assert forall|i: int| 0 <= i < after.len() implies #[trigger] credentials_at(after, i) by {
        let from = if i < at { i } else { i + 1 };
        assert(credentials_at(before, from));
    }
    assert forall|i: int| 0 <= i < after.len() implies #[trigger] id_at(after, i) != id by {
        if i < at {
            assert(id_at(before, i) != id_at(before, at));
        } else {
            assert(id_at(before, at) != id_at(before, i + 1));
        }
    }
    assert forall|i: int, j: int| 0 <= i < j < after.len() implies #[trigger] id_at(after, i)
        != #[trigger] id_at(after, j) by {
        let from = if i < at { i } else { i + 1 };
        let to = if j < at { j } else { j + 1 };
        assert(id_at(before, from) != id_at(before, to));
    }
    if manager.active != Some(id) {
        if let Some(active) = manager.active {
            let place = choose|i: int|
                0 <= i < before.len() && #[trigger] id_at(before, i) == active;
            let moved = if place < at { place } else { place - 1 };
            assert(id_at(after, moved) == active);
        }
    }
}

/// An account may be replaced by one with the same id.
pub proof fn lemma_update_keeps_wf(manager: ManagerView, at: int, account: AccountView)
    requires
        manager.wf(),
        0 <= at < manager.accounts.len(),
        account.id == manager.accounts[at].id,
        has_credentials(account),
    ensures
        manager.with_account(at, account).wf(),
        forall|id: Seq<char>|
            holds(manager.with_account(at, account).accounts, id) == holds(manager.accounts, id),
{
    let before = manager.accounts;
    let after = before.update(at, account);
    assert forall|i: int| 0 <= i < after.len() implies #[trigger] credentials_at(after, i) by {
        if i != at {
            assert(credentials_at(before, i));
        }
    }
    assert forall|i: int| 0 <= i < after.len() implies #[trigger] id_at(after, i) == id_at(
        before,
        i,
    ) by {}
    assert forall|i: int, j: int| 0 <= i < j < after.len() implies #[trigger] id_at(after, i)
        != #[trigger] id_at(after, j) by {
        assert(id_at(before, i) != id_at(before, j));
    }
    assert forall|id: Seq<char>| holds(after, id) == holds(before, id) by {
        if holds(before, id) {
            let i = choose|i: int| 0 <= i < before.len() && #[trigger] id_at(before, i) == id;
            assert(id_at(after, i) == id);
        }
        if holds(after, id) {
            let i = choose|i: int| 0 <= i < after.len() && #[trigger] id_at(after, i) == id;
            assert(id_at(before, i) == id);
        }
    }
    if let Some(active) = manager.active {
        assert(holds(after, active));
    }
}

/// Any account of the list may become the active one.
pub proof fn lemma_switch_keeps_wf(manager: ManagerView, id: Seq<char>)
    requires
        manager.wf(),
        holds(manager.accounts, id),
    ensures
        (ManagerView { accounts: manager.accounts, active: Some(id) }).wf(),
{
}

impl Account {
    /// A copy of the account.
    pub fn duplicate(&self) -> (copy: Account)
        ensures
            copy@ == self@,
    {
        Account {
            id: self.id.clone(),
            name: self.name.clone(),
            cookies: copy_text(&self.cookies),
            jwt_token: copy_text(&self.jwt_token),
            region: self.region,
            machine_id: copy_text(&self.machine_id),
            usage: match &self.usage {
                Some(summary) => Some(summary.duplicate()),
                None => None,
            },
        }
    }
}

/// The place of the first account with the id, if there is one.
fn find(accounts: &Vec<Account>, id: &str) -> (r: Option<usize>)
    ensures
        r is Some <==> holds(account_views(accounts@), id@),
        r matches Some(at) ==> at == position_of(account_views(accounts@), id@) && at
            < accounts@.len() && accounts@[at as int]@.id == id@,
{
    let ghost views = account_views(accounts@);
    let mut at: usize = 0;
    while at < accounts.len()
        invariant
            at <= accounts@.len(),
            views == account_views(accounts@),
            forall|j: int| 0 <= j < at ==> #[trigger] id_at(views, j) != id@,
        decreases accounts@.len() - at,
    {
        if same_text(accounts[at].id.as_str(), id) {
            proof {
                assert(id_at(views, at as int) == id@);
                lemma_position(views, id@);
                let first = position_of(views, id@);
                if first < at {
                    assert(id_at(views, first) != id@);
                }
            }
            return Some(at);
        }
        at = at + 1;
    }
    None
}

impl AccountManager {
    /// Ids are unique and the active account is one of the accounts, at
    /// every moment of a manager's life.
    #[verifier::type_invariant]
    spec fn consistent(self) -> bool {
        self@.wf()
    }

    /// Takes the accounts and the active id out and leaves the manager empty.
    fn take(&mut self) -> (parts: (Vec<Account>, Option<String>))
        ensures
            old(self)@.wf(),
            account_views(parts.0@) == old(self)@.accounts,
            text_view(parts.1) == old(self)@.active,
            final(self)@ == (ManagerView { accounts: Seq::empty(), active: None }),
    {
        proof {
            use_type_invariant(&*self);
        }
        let mut owned = AccountManager { accounts: Vec::new(), active: None };
        proof {
            assert(owned@.accounts =~= Seq::<AccountView>::empty());
        }
        std::mem::swap(self, &mut owned);
        (owned.accounts, owned.active)
    }

    /// Puts accounts and an active id into the manager.
    fn set(&mut self, accounts: Vec<Account>, active: Option<String>)
        requires
            (ManagerView { accounts: account_views(accounts@), active: text_view(active) }).wf(),
        ensures
            final(self)@ == (ManagerView {
                accounts: account_views(accounts@),
                active: text_view(active),
            }),
    {
        *self = AccountManager { accounts, active };
    }

    /// A manager without accounts.
    pub fn new() -> (manager: AccountManager)
        ensures
            manager@ == (ManagerView { accounts: Seq::empty(), active: None }),
            manager@.wf(),
    {
        let manager = AccountManager { accounts: Vec::new(), active: None };
        proof {
            assert(manager@.accounts =~= Seq::<AccountView>::empty());
        }
        manager
    }

    /// The number of accounts.
    pub fn len(&self) -> (count: usize)
        ensures
            count == self@.accounts.len(),
            self@.wf(),
    {
        proof {
            use_type_invariant(self);
        }
        self.accounts.len()
    }

    /// The id of the active account.
    pub fn active_account(&self) -> (r: Option<&str>)
        ensures
            match r {
                Some(id) => self@.active == Some(id@),
                None => self@.active is None,
            },
    {
        match &self.active {
            Some(id) => Some(id.as_str()),
            None => None,
        }
    }

    /// Takes in an account for a bearer token and, where there is one, a
    /// cookie string. The token must give its claims, and the id must be
    /// new; otherwise nothing changes.
    pub fn add_account_by_token(
        &mut self,
        id: String,
        name: String,
        token: String,
        cookies: Option<String>,
    ) -> (r: Result<(), ManagerError>)
        ensures
            final(self)@.wf(),
            match claims_of(encode_utf8(token@)) {
                Err(error) => r == Err::<(), ManagerError>(ManagerError::Token(error))
                    && final(self)@ == old(self)@,
                Ok(_) => if holds(old(self)@.accounts, id@) {
                    r == Err::<(), ManagerError>(ManagerError::DuplicateId)
                        && final(self)@ == old(self)@
                } else {
                    r is Ok && final(self)@ == (ManagerView {
                        accounts: old(self)@.accounts.push(
                            new_account(id@, name@, token@, text_view(cookies)),
                        ),
                        active: old(self)@.active,
                    })
                },
            },
    {
        proof {
            use_type_invariant(&*self);
        }
        if let Err(error) = parse_jwt_token(token.as_str()) {
            return Err(ManagerError::Token(error));
        }
        if find(&self.accounts, id.as_str()).is_some() {
            return Err(ManagerError::DuplicateId);
        }
        let (cleaned, region) = match cookies {
            Some(text) => {
                let cleaned = sanitize(text.as_str());
                let region = detect_api_base_from_cookies(cleaned.as_str());
                (Some(cleaned), region)
            },
            None => (None, RegionEndpoint::Sg),
        };
        let account = Account {
            id,
            name,
            cookies: cleaned,
            jwt_token: Some(token),
            region,
            machine_id: None,
            usage: None,
        };
        let (mut accounts, active) = self.take();
        let ghost before = old(self)@;
        accounts.push(account);
        proof {
            let added = new_account(id@, name@, token@, text_view(cookies));
            assert(account@ == added);
            assert(account_views(accounts@) =~= before.accounts.push(added));
            lemma_push_keeps_wf(before, added);
        }
        self.set(accounts, active);
        Ok(())
    }

    /// Drops the account with the id. If it was the active one, no
    /// account is active afterwards.
    pub fn remove_account(&mut self, id: &str) -> (r: Result<(), ManagerError>)
        ensures
            final(self)@.wf(),
            if holds(old(self)@.accounts, id@) {
                r is Ok && final(self)@ == (ManagerView {
                    accounts: old(self)@.accounts.remove(position_of(old(self)@.accounts, id@)),
                    active: if old(self)@.active == Some(id@) {
                        None
                    } else {
                        old(self)@.active
                    },
                })
            } else {
                r == Err::<(), ManagerError>(ManagerError::NotFound) && final(self)@ == old(self)@
            },
            !holds(final(self)@.accounts, id@),
    {
        proof {
            use_type_invariant(&*self);
        }
        let at = match find(&self.accounts, id) {
            Some(at) => at,
            None => {
                return Err(ManagerError::NotFound);
            },
        };
        let (mut accounts, active) = self.take();
        let ghost before = old(self)@;
        let was_active = match &active {
            Some(active) => same_text(active.as_str(), id),
            None => false,
        };
        let _ = accounts.remove(at);
        proof {
            assert(account_views(accounts@) =~= before.accounts.remove(at as int));
            lemma_remove_keeps_wf(before, at as int);
        }
        if was_active {
            self.set(accounts, None);
        } else {
            self.set(accounts, active);
        }
        Ok(())
    }

    /// What a list shows of every account, in their order. At most one
    /// of them is marked active.
    pub fn get_accounts(&self) -> (briefs: Vec<AccountBrief>)
        ensures
            brief_views(briefs@) == self@.briefs(),
    {
        let mut briefs: Vec<AccountBrief> = Vec::new();
        let mut at: usize = 0;
        while at < self.accounts.len()
            invariant
                at <= self.accounts@.len(),
                briefs@.len() == at,
                forall|i: int| 0 <= i < at ==> (#[trigger] briefs@[i])@ == self@.brief(i),
            decreases self.accounts@.len() - at,
        {
            let account = &self.accounts[at];
            let is_active = match &self.active {
                Some(active) => same_text(active.as_str(), account.id.as_str()),
                None => false,
            };
            briefs.push(
                AccountBrief { id: account.id.clone(), name: account.name.clone(), is_active },
            );
            at = at + 1;
        }
        proof {
            assert(brief_views(briefs@) =~= self@.briefs());
        }
        briefs
    }

    /// The account with the id.
    pub fn get_account(&self, id: &str) -> (r: Result<&Account, ManagerError>)
        ensures
            if holds(self@.accounts, id@) {
                r matches Ok(account) && account@ == self@.accounts[position_of(
                    self@.accounts,
                    id@,
                )]
            } else {
                r matches Err(error) && error == ManagerError::NotFound
            },
    {
        match find(&self.accounts, id) {
            Some(at) => Ok(&self.accounts[at]),
            None => Err(ManagerError::NotFound),
        }
    }

    /// Makes the account with the id the active one and hands out the
    /// machine identity that it is bound to, for the caller to adopt.
    pub fn switch_account(&mut self, id: &str) -> (r: Result<Option<String>, ManagerError>)
        ensures
            final(self)@.wf(),
            if holds(old(self)@.accounts, id@) {
                &&& r matches Ok(machine_id)
                &&& text_view(machine_id) == old(self)@.accounts[position_of(
                    old(self)@.accounts,
                    id@,
                )].machine_id
                &&& final(self)@ == (ManagerView {
                    accounts: old(self)@.accounts,
                    active: Some(id@),
                })
            } else {
                r matches Err(error) && error == ManagerError::NotFound
                    && final(self)@ == old(self)@
            },
    {
        proof {
            use_type_invariant(&*self);
        }
        match find(&self.accounts, id) {
            Some(at) => {
                let machine_id = copy_text(&self.accounts[at].machine_id);
                let (accounts, _) = self.take();
                proof {
                    lemma_switch_keeps_wf(old(self)@, id@);
                }
                self.set(accounts, Some(String::from_str(id)));
                Ok(machine_id)
            },
            None => Err(ManagerError::NotFound),
        }
    }

    /// Puts `account` in the place `at`. The id must stay the same.
    fn put(&mut self, at: usize, account: Account)
        requires
            at < old(self)@.accounts.len(),
            account@.id == old(self)@.accounts[at as int].id,
            has_credentials(account@),
        ensures
            final(self)@.wf(),
            final(self)@ == old(self)@.with_account(at as int, account@),
    {
        let (mut accounts, active) = self.take();
        let ghost before = old(self)@;
        let _ = accounts.remove(at);
        accounts.insert(at, account);
        proof {
            assert(account_views(accounts@) =~= before.accounts.update(at as int, account@));
            lemma_update_keeps_wf(before, at as int, account@);
        }
        self.set(accounts, active);
    }

    /// Replaces the token of the account with the id and forgets its
    /// summary, which spoke of the old token.
    pub fn update_account_token(&mut self, id: &str, token: String) -> (r: Result<
        (),
        ManagerError,
    >)
        ensures
            final(self)@.wf(),
            if holds(old(self)@.accounts, id@) {
                let at = position_of(old(self)@.accounts, id@);
                r is Ok && final(self)@ == old(self)@.with_account(
                    at,
                    AccountView {
                        jwt_token: Some(token@),
                        usage: None,
                        ..old(self)@.accounts[at]
                    },
                )
            } else {
                r == Err::<(), ManagerError>(ManagerError::NotFound) && final(self)@ == old(self)@
            },
    {
        proof {
            use_type_invariant(&*self);
        }
        match find(&self.accounts, id) {
            Some(at) => {
                let mut account = self.accounts[at].duplicate();
                account.jwt_token = Some(token);
                account.usage = None;
                self.put(at, account);
                Ok(())
            },
            None => Err(ManagerError::NotFound),
        }
    }

    /// Keeps a token that was issued for the account with the id. The
    /// summary stays.
    pub fn record_token(&mut self, id: &str, token: String) -> (r: Result<(), ManagerError>)
        ensures
            final(self)@.wf(),
            if holds(old(self)@.accounts, id@) {
                let at = position_of(old(self)@.accounts, id@);
                r is Ok && final(self)@ == old(self)@.with_account(
                    at,
                    AccountView { jwt_token: Some(token@), ..old(self)@.accounts[at] },
                )
            } else {
                r == Err::<(), ManagerError>(ManagerError::NotFound) && final(self)@ == old(self)@
            },
    {
        proof {
            use_type_invariant(&*self);
        }
        match find(&self.accounts, id) {
            Some(at) => {
                let mut account = self.accounts[at].duplicate();
                account.jwt_token = Some(token);
                self.put(at, account);
                Ok(())
            },
            None => Err(ManagerError::NotFound),
        }
    }

    /// Keeps the summary that was computed for the account with the id.
    pub fn record_usage(&mut self, id: &str, summary: UsageSummary) -> (r: Result<
        (),
        ManagerError,
    >)
        ensures
            final(self)@.wf(),
            if holds(old(self)@.accounts, id@) {
                let at = position_of(old(self)@.accounts, id@);
                r is Ok && final(self)@ == old(self)@.with_account(
                    at,
                    AccountView { usage: Some(summary@), ..old(self)@.accounts[at] },
                )
            } else {
                r == Err::<(), ManagerError>(ManagerError::NotFound) && final(self)@ == old(self)@
            },
    {
        proof {
            use_type_invariant(&*self);
        }
        match find(&self.accounts, id) {
            Some(at) => {
                let mut account = self.accounts[at].duplicate();
                proof {
                    assert(credentials_at(self@.accounts, at as int));
                }
                account.usage = Some(summary);
                self.put(at, account);
                Ok(())
            },
            None => Err(ManagerError::NotFound),
        }
    }

    /// Binds the account with the id to a machine identity.
    pub fn bind_machine_id(&mut self, id: &str, machine_id: String) -> (r: Result<
        (),
        ManagerError,
    >)
        ensures
            final(self)@.wf(),
            if holds(old(self)@.accounts, id@) {
                let at = position_of(old(self)@.accounts, id@);
                r is Ok && final(self)@ == old(self)@.with_account(
                    at,
                    AccountView { machine_id: Some(machine_id@), ..old(self)@.accounts[at] },
                )
            } else {
                r == Err::<(), ManagerError>(ManagerError::NotFound) && final(self)@ == old(self)@
            },
    {
        proof {
            use_type_invariant(&*self);
        }
        match find(&self.accounts, id) {
            Some(at) => {
                let mut account = self.accounts[at].duplicate();
                proof {
                    assert(credentials_at(self@.accounts, at as int));
                }
                account.machine_id = Some(machine_id);
                self.put(at, account);
                Ok(())
            },
            None => Err(ManagerError::NotFound),
        }
    }

    /// The session of the account with the id: its credentials as they
    /// are kept, and its region.
    pub fn session(&self, id: &str) -> (r: Result<TraeApiClient, ManagerError>)
        ensures
            if holds(self@.accounts, id@) {
                r matches Ok(client) && client@ == self@.session(
                    position_of(self@.accounts, id@),
                )
            } else {
                r matches Err(error) && error == ManagerError::NotFound
            },
    {
        match find(&self.accounts, id) {
            Some(at) => {
                let account = &self.accounts[at];
                let cookies = match &account.cookies {
                    Some(text) => Some(text.as_str()),
                    None => None,
                };
                let token = match &account.jwt_token {
                    Some(text) => Some(text.as_str()),
                    None => None,
                };
                Ok(TraeApiClient::with_credentials(cookies, token, account.region))
            },
            None => Err(ManagerError::NotFound),
        }
    }

    /// A copy of every account, in their order.
    pub fn export_accounts(&self) -> (snapshot: Vec<Account>)
        ensures
            account_views(snapshot@) == self@.accounts,
    {
        let mut snapshot: Vec<Account> = Vec::new();
        let mut at: usize = 0;
        while at < self.accounts.len()
            invariant
                at <= self.accounts@.len(),
                snapshot@.len() == at,
                forall|i: int| 0 <= i < at ==> (#[trigger] snapshot@[i])@ == self.accounts@[i]@,
            decreases self.accounts@.len() - at,
        {
            snapshot.push(self.accounts[at].duplicate());
            at = at + 1;
        }
        proof {
            assert(account_views(snapshot@) =~= self@.accounts);
        }
        snapshot
    }

    /// Takes in the accounts of a snapshot, in their order, but for those
    /// whose id is there already, and says how many were taken in.
    pub fn import_accounts(&mut self, incoming: Vec<Account>) -> (count: usize)
        ensures
            final(self)@.wf(),
            final(self)@ == (ManagerView {
                accounts: merged(old(self)@.accounts, account_views(incoming@)),
                active: old(self)@.active,
            }),
            count == final(self)@.accounts.len() - old(self)@.accounts.len(),
    {
        proof {
            use_type_invariant(&*self);
        }
        let ghost all = account_views(incoming@);
        let total: usize = incoming.len();
        let mut incoming = incoming;
        let mut rest: Vec<Account> = Vec::new();
        // The accounts are taken from the end, so they are turned round first.
        while incoming.len() > 0
            invariant
                rest@.len() + incoming@.len() == all.len(),
                all.len() == total,
                forall|i: int|
                    0 <= i < incoming@.len() ==> (#[trigger] incoming@[i])@ == all[i],
                forall|i: int|
                    0 <= i < rest@.len() ==> (#[trigger] rest@[i])@ == all[all.len() - 1 - i],
            decreases incoming@.len(),
        {
            let account = incoming.pop().unwrap();
            rest.push(account);
        }
        let (mut accounts, active) = self.take();
        let ghost start = old(self)@;
        let mut count: usize = 0;
        let mut taken: usize = 0;
        while rest.len() > 0
            invariant
                (ManagerView { accounts: account_views(accounts@), active: start.active }).wf(),
                taken + rest@.len() == all.len(),
                all.len() == total,
                forall|i: int|
                    0 <= i < rest@.len() ==> (#[trigger] rest@[i])@ == all[all.len() - 1 - i],
                account_views(accounts@) == merged(start.accounts, all.take(taken as int)),
                count == accounts@.len() - start.accounts.len(),
                count <= taken,
            decreases rest@.len(),
        {
            let account = rest.pop().unwrap();
            proof {
                assert(account@ == all[taken as int]);
                assert(all.take(taken + 1).drop_last() =~= all.take(taken as int));
                assert(all.take(taken + 1).last() == all[taken as int]);
            }
            let credentialed = account.cookies.is_some() || account.jwt_token.is_some();
            if credentialed && find(&accounts, account.id.as_str()).is_none() {
                let ghost before = ManagerView {
                    accounts: account_views(accounts@),
                    active: start.active,
                };
                accounts.push(account);
                proof {
                    assert(account_views(accounts@) =~= before.accounts.push(account@));
                    lemma_push_keeps_wf(before, account@);
                }
                count = count + 1;
            }
            taken = taken + 1;
        }
        proof {
            assert(all.take(all.len() as int) =~= all);
        }
        self.set(accounts, active);
        count
    }
}

/// At most one account of a list is marked active.
pub proof fn lemma_one_active(manager: ManagerView, first: int, second: int)
    requires
        manager.wf(),
        0 <= first < manager.accounts.len(),
        0 <= second < manager.accounts.len(),
        manager.briefs()[first].is_active,
        manager.briefs()[second].is_active,
    ensures
        first == second,
{
    if first < second {
        assert(id_at(manager.accounts, first) != id_at(manager.accounts, second));
    } else if second < first {
        assert(id_at(manager.accounts, second) != id_at(manager.accounts, first));
    }
}

/// What a manager exports meets what the round trip asks for.
pub proof fn lemma_export_is_a_snapshot(manager: ManagerView)
    requires
        manager.wf(),
    ensures
        unique_ids(manager.accounts),
        all_have_credentials(manager.accounts),
        merged(Seq::<AccountView>::empty(), manager.accounts) == manager.accounts,
{
    lemma_snapshot_round_trip(manager.accounts);
}

/// A snapshot that is taken into a manager without accounts comes out
/// as it went in: the accounts, their fields and their order.
pub proof fn lemma_snapshot_round_trip(snapshot: Seq<AccountView>)
    requires
        unique_ids(snapshot),
        all_have_credentials(snapshot),
    ensures
        merged(Seq::<AccountView>::empty(), snapshot) == snapshot,
    decreases snapshot.len(),
{
    if snapshot.len() > 0 {
        let head = snapshot.drop_last();
        assert(unique_ids(head)) by {
            assert forall|i: int, j: int| 0 <= i < j < head.len() implies #[trigger] id_at(
                head,
                i,
            ) != #[trigger] id_at(head, j) by {
                assert(id_at(snapshot, i) != id_at(snapshot, j));
            }
        }
        assert forall|i: int| 0 <= i < head.len() implies #[trigger] credentials_at(head, i) by {
            assert(credentials_at(snapshot, i));
        }
        assert(credentials_at(snapshot, snapshot.len() - 1));
        lemma_snapshot_round_trip(head);
        assert(!holds(head, snapshot.last().id)) by {
            if holds(head, snapshot.last().id) {
                let i = choose|i: int|
                    0 <= i < head.len() && #[trigger] id_at(head, i) == snapshot.last().id;
                assert(id_at(snapshot, i) != id_at(snapshot, snapshot.len() - 1));
            }
        }
        assert(head.push(snapshot.last()) =~= snapshot);
    } else {
        assert(snapshot =~= Seq::<AccountView>::empty());
    }
}

} // verus!
