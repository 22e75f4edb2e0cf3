//! Menu identifiers and actions, and what the tray shows of a resource.
use crate::error::TwingateError;
use crate::models::{Alias, Network, Resource};
use crate::state::ServiceStatus;
use crate::text::{chars_of, contains, has_infix, last_segment, last_segment_of, same_text};
use vstd::prelude::*;

verus! {

pub const TWINGATE_TRAY_ID: &'static str = "twingate_tray";

pub const USER_STATUS_ID: &'static str = "user_status";

pub const START_SERVICE_ID: &'static str = "start_service";

pub const STOP_SERVICE_ID: &'static str = "stop_service";

pub const RESOURCE_ADDRESS_ID: &'static str = "resource_address";

pub const COPY_ADDRESS_ID: &'static str = "copy_address";

pub const AUTHENTICATE_ID: &'static str = "authenticate";

pub const OPEN_IN_BROWSER_ID: &'static str = "open_in_browser";

pub const OPEN_AUTH_URL_ID: &'static str = "open_auth_url";

pub const COPY_AUTH_URL_ID: &'static str = "copy_auth_url";

pub const QUIT_ID: &'static str = "quit";

/// A menu click, as its item identifier tells it.
#[derive(Debug, Clone)]
pub enum MenuAction {
    StartService,
    StopService,
    CopyAddress(String),
    Authenticate(String),
    OpenInBrowser(String),
    OpenAuthUrl,
    CopyAuthUrl,
    Quit,
    Unknown(String),
}

pub ghost enum MenuActionView {
    StartService,
    StopService,
    CopyAddress(Seq<char>),
    Authenticate(Seq<char>),
    OpenInBrowser(Seq<char>),
    OpenAuthUrl,
    CopyAuthUrl,
    Quit,
    Unknown(Seq<char>),
}

impl View for MenuAction {
    type V = MenuActionView;

    open spec fn view(&self) -> MenuActionView {
        match self {
            MenuAction::StartService => MenuActionView::StartService,
            MenuAction::StopService => MenuActionView::StopService,
            MenuAction::CopyAddress(id) => MenuActionView::CopyAddress(id@),
            MenuAction::Authenticate(id) => MenuActionView::Authenticate(id@),
            MenuAction::OpenInBrowser(id) => MenuActionView::OpenInBrowser(id@),
            MenuAction::OpenAuthUrl => MenuActionView::OpenAuthUrl,
            MenuAction::CopyAuthUrl => MenuActionView::CopyAuthUrl,
            MenuAction::Quit => MenuActionView::Quit,
            MenuAction::Unknown(id) => MenuActionView::Unknown(id@),
        }
    }
}

/// The action of a menu item identifier: the fixed identifiers first, then
/// the resource actions, whose resource id is the part after the last `-`.
pub open spec fn action_of(id: Seq<char>) -> MenuActionView {
    if id == QUIT_ID@ {
        MenuActionView::Quit
    } else if id == START_SERVICE_ID@ {
        MenuActionView::StartService
    } else if id == STOP_SERVICE_ID@ {
        MenuActionView::StopService
    } else if id == OPEN_AUTH_URL_ID@ {
        MenuActionView::OpenAuthUrl
    } else if id == COPY_AUTH_URL_ID@ {
        MenuActionView::CopyAuthUrl
    } else if has_infix(id, COPY_ADDRESS_ID@) {
        MenuActionView::CopyAddress(last_segment(id))
    } else if has_infix(id, AUTHENTICATE_ID@) {
        MenuActionView::Authenticate(last_segment(id))
    } else if has_infix(id, OPEN_IN_BROWSER_ID@) {
        MenuActionView::OpenInBrowser(last_segment(id))
    } else {
        MenuActionView::Unknown(id)
    }
}

impl MenuAction {
    pub fn from_event_id(event_id: &str) -> (r: Self)
        ensures
            r@ == action_of(event_id@),
    {
        let id = chars_of(event_id);
        let id = id.as_slice();
        if same_text(id, QUIT_ID) {
            MenuAction::Quit
        } else if same_text(id, START_SERVICE_ID) {
            MenuAction::StartService
        } else if same_text(id, STOP_SERVICE_ID) {
            MenuAction::StopService
        } else if same_text(id, OPEN_AUTH_URL_ID) {
            MenuAction::OpenAuthUrl
        } else if same_text(id, COPY_AUTH_URL_ID) {
            MenuAction::CopyAuthUrl
        } else if contains(id, COPY_ADDRESS_ID) {
            MenuAction::CopyAddress(last_segment_of(event_id))
        } else if contains(id, AUTHENTICATE_ID) {
            MenuAction::Authenticate(last_segment_of(event_id))
        } else if contains(id, OPEN_IN_BROWSER_ID) {
            MenuAction::OpenInBrowser(last_segment_of(event_id))
        } else {
            MenuAction::Unknown(event_id.to_owned())
        }
    }
}

/// The address shown for a resource: its alias when set and not empty,
/// else its address.
pub open spec fn display_address(r: Resource) -> Seq<char> {
    match r.alias {
        Some(a) => if a@.len() > 0 {
            a@
        } else {
            r.address@
        },
        None => r.address@,
    }
}

/// An empty alias falls back to the address; a non-empty one is shown as is.
pub proof fn lemma_address_fallback(r: Resource)
    ensures
        forall|a: String| r.alias == Some(a) && a@.len() == 0 ==> display_address(r) == r.address@,
        forall|a: String| r.alias == Some(a) && a@.len() > 0 ==> display_address(r) == a@,
        r.alias is None ==> display_address(r) == r.address@,
{
}

pub fn get_address_from_resource(resource: &Resource) -> (r: &String)
    ensures
        r@ == display_address(*resource),
{
    match &resource.alias {
        Some(a) => {
            if a.as_str().is_empty() {
                &resource.address
            } else {
                a
            }
        },
        None => &resource.address,
    }
}

/// The first non-empty open URL among the aliases from the `k`-th on.
pub open spec fn first_open_url(aliases: Seq<Alias>, k: int) -> Option<Seq<char>>
    decreases aliases.len() - k,
{
    if k < 0 || k >= aliases.len() {
        None
    } else if aliases[k].open_url@.len() > 0 {
        Some(aliases[k].open_url@)
    } else {
        first_open_url(aliases, k + 1)
    }
}

/// The URL that opens a resource in the browser: none unless the resource
/// allows it, else the first non-empty open URL of its aliases.
pub open spec fn browser_url(r: Resource) -> Option<Seq<char>> {
    if !r.can_open_in_browser {
        None
    } else {
        first_open_url(r.aliases@, 0)
    }
}

pub fn get_open_url_from_resource(resource: &Resource) -> (r: Option<&String>)
    ensures
        match r {
            Some(u) => browser_url(*resource) == Some(u@),
            None => browser_url(*resource) is None,
        },
{
    if !resource.can_open_in_browser {
        return None;
    }
    let aliases = &resource.aliases;
    let mut i: usize = 0;
    while i < aliases.len()
        invariant
            resource.can_open_in_browser,
            aliases@ == resource.aliases@,
            i <= aliases@.len(),
            first_open_url(aliases@, 0) == first_open_url(aliases@, i as int),
        decreases aliases.len() - i,
    {
        if !aliases[i].open_url.as_str().is_empty() {
            return Some(&aliases[i].open_url);
        }
        i += 1;
    }
    None
}

/// The position of the first resource of the network with this id.
pub open spec fn resource_index(resources: Seq<Resource>, id: Seq<char>, k: int) -> Option<int>
    decreases resources.len() - k,
{
    if k < 0 || k >= resources.len() {
        None
    } else if resources[k].id@ == id {
        Some(k)
    } else {
        resource_index(resources, id, k + 1)
    }
}

proof fn lemma_resource_index_bounds(resources: Seq<Resource>, id: Seq<char>, k: int)
    requires
        0 <= k,
    ensures
        resource_index(resources, id, k) matches Some(i) ==> k <= i < resources.len(),
    decreases resources.len() - k,
{
    if k < resources.len() && resources[k].id@ != id {
        lemma_resource_index_bounds(resources, id, k + 1);
    }
}

/// The position of the first resource of the network with this id.
pub fn find_resource(network: &Network, id: &str) -> (r: Option<usize>)
    ensures
        match r {
            Some(i) => resource_index(network.resources@, id@, 0) == Some(i as int) && i
                < network.resources@.len(),
            None => resource_index(network.resources@, id@, 0) is None,
        },
{
    let resources = &network.resources;
    let mut i: usize = 0;
    while i < resources.len()
        invariant
            resources@ == network.resources@,
            i <= resources@.len(),
            resource_index(resources@, id@, 0) == resource_index(resources@, id@, i as int),
        decreases resources.len() - i,
    {
        let rid = chars_of(resources[i].id.as_str());
        if same_text(rid.as_slice(), id) {
            return Some(i);
        }
        i += 1;
    }
    None
}

/// The resource with this id in the network, if the network is known.
/// Fails with `ServiceNotRunning` without a network, and with
/// `ResourceNotFound` when no resource has the id.
pub fn resolve_resource<'a>(network: Option<&'a Network>, id: &str) -> (r: Result<
    &'a Resource,
    TwingateError,
>)
    ensures
        network is None ==> r == Err::<&Resource, TwingateError>(TwingateError::ServiceNotRunning),
        network matches Some(n) ==> match resource_index(n.resources@, id@, 0) {
            Some(i) => r matches Ok(res) && *res == n.resources@[i],
            None => r matches Err(TwingateError::ResourceNotFound { id: e }) && e@ == id@,
        },
{
    match network {
        None => Err(TwingateError::ServiceNotRunning),
        Some(n) => match find_resource(n, id) {
            Some(i) => Ok(&n.resources[i]),
            None => Err(TwingateError::resource_not_found(id)),
        },
    }
}

/// The address to copy for a copy-address item: the resource is the one
/// named after the last `-` of the item's id, and its shown address is
/// copied.
pub fn address_to_copy(address_id: &str, network: Option<&Network>) -> (r: Result<
    String,
    TwingateError,
>)
    ensures
        network is None ==> r == Err::<String, TwingateError>(TwingateError::ServiceNotRunning),
        network matches Some(n) ==> match resource_index(n.resources@, last_segment(address_id@), 0) {
            Some(i) => r matches Ok(a) && a@ == display_address(n.resources@[i]),
            None => r matches Err(TwingateError::ResourceNotFound { id: e }) && e@ == last_segment(
                address_id@,
            ),
        },
{
    let id = last_segment_of(address_id);
    match resolve_resource(network, id.as_str()) {
        Ok(res) => Ok(get_address_from_resource(res).clone()),
        Err(e) => Err(e),
    }
}

/// The URL to open for an open-in-browser item. Fails with
/// `InvalidResourceId` when the resource has no URL to open.
pub fn url_to_open(resource_id: &str, network: Option<&Network>) -> (r: Result<String, TwingateError>)
    ensures
        network is None ==> r == Err::<String, TwingateError>(TwingateError::ServiceNotRunning),
        network matches Some(n) ==> match resource_index(n.resources@, resource_id@, 0) {
            Some(i) => match browser_url(n.resources@[i]) {
                Some(u) => r matches Ok(x) && x@ == u,
                None => r matches Err(TwingateError::InvalidResourceId { id: e }) && e@
                    == resource_id@,
            },
            None => r matches Err(TwingateError::ResourceNotFound { id: e }) && e@ == resource_id@,
        },
{
    match resolve_resource(network, resource_id) {
        Ok(res) => match get_open_url_from_resource(res) {
            Some(u) => Ok(u.clone()),
            None => Err(TwingateError::invalid_resource_id(resource_id)),
        },
        Err(e) => Err(e),
    }
}

/// Which menu the tray shows.
#[derive(Debug, Clone, Copy, PartialEq, Eq, Structural)]
pub enum MenuKind {
    Authenticating,
    Connected,
    Disconnected,
}

/// The menu for a status and the snapshot at hand: the authenticating menu
/// while authenticating, else the connected menu when there is a snapshot.
pub fn menu_kind(status: &ServiceStatus, has_network: bool) -> (r: MenuKind)
    ensures
        *status is Authenticating ==> r == MenuKind::Authenticating,
        !(*status is Authenticating) && has_network ==> r == MenuKind::Connected,
        !(*status is Authenticating) && !has_network ==> r == MenuKind::Disconnected,
{
    match status {
        ServiceStatus::Authenticating(_) => MenuKind::Authenticating,
        _ => if has_network {
            MenuKind::Connected
        } else {
            MenuKind::Disconnected
        },
    }
}

/// Whether starting the service should schedule a delayed tray rebuild:
/// not while authenticating, whose menu was shown already.
pub fn rebuild_after_start(status: &ServiceStatus) -> (r: bool)
    ensures
        r == !(*status is Authenticating),
{
    match status {
        ServiceStatus::Authenticating(_) => false,
        _ => true,
    }
}

/// Positions, from the `k`-th on, of the resources that are not hidden.
pub open spec fn visible_from(resources: Seq<Resource>, k: int) -> Seq<usize>
    decreases resources.len() - k,
{
    if k < 0 || k >= resources.len() {
        Seq::empty()
    } else if resources[k].client_visibility != 0 {
        seq![k as usize] + visible_from(resources, k + 1)
    } else {
        visible_from(resources, k + 1)
    }
}

/// Positions of the resources that the menu lists: those not hidden.
pub fn visible_resources(network: &Network) -> (r: Vec<usize>)
    ensures
        r@ == visible_from(network.resources@, 0),
{
    let resources = &network.resources;
    let mut r: Vec<usize> = Vec::new();
    let mut i: usize = 0;
    while i < resources.len()
        invariant
            resources@ == network.resources@,
            i <= resources@.len(),
            visible_from(resources@, 0) == r@ + visible_from(resources@, i as int),
        decreases resources.len() - i,
    {
        if resources[i].client_visibility != 0 {
            r.push(i);
            assert(visible_from(resources@, 0) =~= r@ + visible_from(resources@, i + 1));
        }
        i += 1;
    }
    assert(r@ + visible_from(resources@, i as int) =~= r@);
    r
}

/// Whole days in a span of milliseconds, rounded toward zero.
pub open spec fn whole_days(ms: int) -> int {
    if ms >= 0 {
        ms / 86_400_000
    } else {
        -((-ms) / 86_400_000)
    }
}

/// Relies on chrono's `Duration::milliseconds` and `num_days`: the span's
/// whole days, rounded toward zero. `milliseconds` panics on `i64::MIN`.
#[verifier::external_body]
fn span_days(ms: i64) -> (r: i64)
    requires
        ms > i64::MIN,
    ensures
        r == whole_days(ms as int),
{
    chrono::Duration::milliseconds(ms).num_days()
}

/// The days of validity a resource's menu shows: none for a resource that
/// was never authenticated.
pub fn auth_expiry_days(resource: &Resource) -> (r: Option<i64>)
    requires
        resource.auth_expires_at > i64::MIN,
    ensures
        resource.auth_expires_at == 0 ==> r is None,
        resource.auth_expires_at != 0 ==> r == Some(whole_days(resource.auth_expires_at as int) as i64),
{
    if resource.auth_expires_at == 0 {
        None
    } else {
        Some(span_days(resource.auth_expires_at))
    }
}

} // verus!
