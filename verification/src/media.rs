//! Transport media, the endpoint name advertised to peers, and transfer
//! cancellation.

use vstd::prelude::*;
use vstd::utf8::encode_utf8;
use crate::text::{chars_of, copy_range, string_from_chars, trim, trim_range};

verus! {

/// A Nearby Connections transport medium.
#[derive(Clone, Copy, Debug, PartialEq, Eq, Structural)]
pub enum Medium {
    /// LAN TCP.
    WifiLan,
    /// Wi-Fi hotspot.
    WifiHotspot,
    /// Wi-Fi Direct.
    WifiDirect,
    /// Bluetooth Low Energy.
    Ble,
    /// Bluetooth Classic.
    Bluetooth,
}

/// Ordered media used for one outbound attempt chain: LAN first, Bluetooth
/// Classic last.
pub fn attempt_order() -> (r: [Medium; 5])
    ensures
        r@ == seq![Medium::WifiLan, Medium::WifiHotspot, Medium::WifiDirect, Medium::Ble, Medium::Bluetooth],
{
    [Medium::WifiLan, Medium::WifiHotspot, Medium::WifiDirect, Medium::Ble, Medium::Bluetooth]
}

/// The public snake_case name of a medium.
pub open spec fn medium_name_spec(medium: Medium) -> Seq<char> {
    match medium {
        Medium::Ble => "ble"@,
        Medium::Bluetooth => "bluetooth"@,
        Medium::WifiLan => "wifi_lan"@,
        Medium::WifiHotspot => "wifi_hotspot"@,
        Medium::WifiDirect => "wifi_direct"@,
    }
}

/// Public snake_case name for a medium.
pub fn medium_name(medium: Medium) -> (r: &'static str)
    ensures
        r@ == medium_name_spec(medium),
{
    match medium {
        Medium::Ble => "ble",
        Medium::Bluetooth => "bluetooth",
        Medium::WifiLan => "wifi_lan",
        Medium::WifiHotspot => "wifi_hotspot",
        Medium::WifiDirect => "wifi_direct",
    }
}

/// Bandwidth rank of a medium: higher is faster.
pub open spec fn rank_spec(medium: Medium) -> u8 {
    match medium {
        Medium::Ble => 1,
        Medium::Bluetooth => 2,
        Medium::WifiLan => 3,
        Medium::WifiHotspot | Medium::WifiDirect => 4,
    }
}

/// Bandwidth rank of a medium: higher is faster.
pub fn rank(medium: Medium) -> (r: u8)
    ensures
        r == rank_spec(medium),
{
    match medium {
        Medium::Ble => 1,
        Medium::Bluetooth => 2,
        Medium::WifiLan => 3,
        Medium::WifiHotspot | Medium::WifiDirect => 4,
    }
}

/// Name shown to nearby peers when the host has no usable hostname.
pub open spec fn fallback_endpoint_name() -> Seq<char> {
    seq!['O', 'm', 'a', 'r', 'c', 'h', 'y']
}

/// The endpoint name for a raw hostname: the trimmed hostname when it is
/// non-empty and at most 255 UTF-8 bytes, else `Omarchy`.
pub open spec fn normalized_endpoint_name_spec(raw: Option<Seq<char>>) -> Seq<char> {
    match raw {
        Some(s) => if trim(s).len() > 0 && encode_utf8(trim(s)).len() <= 255 {
            trim(s)
        } else {
            fallback_endpoint_name()
        },
        None => fallback_endpoint_name(),
    }
}

/// Normalizes a raw hostname into the advertised endpoint name.
pub fn normalized_endpoint_name(raw: Option<&str>) -> (r: String)
    ensures
        r@ == normalized_endpoint_name_spec(match raw {
            Some(s) => Some(s@),
            None => None,
        }),
{
    let fallback = ['O', 'm', 'a', 'r', 'c', 'h', 'y'];
    assert(fallback@ =~= fallback_endpoint_name());
    match raw {
        Some(s) => {
            let chars = chars_of(s);
            let (a, b) = trim_range(&chars, 0, chars.len());
            assert(chars@.subrange(0, chars@.len() as int) =~= chars@);
            let trimmed = copy_range(&chars, a, b);
            let name = string_from_chars(trimmed.as_slice());
            if trimmed.len() > 0 && name.as_str().as_bytes().len() <= 255 {
                name
            } else {
                string_from_chars(&fallback)
            }
        },
        None => string_from_chars(&fallback),
    }
}

/// The name shown to nearby peers: the configured device name when one is
/// set, else the normalized contents of `/etc/hostname`.
pub fn endpoint_name(device_name: Option<String>, hostname: Option<&str>) -> (r: String)
    ensures
        r@ == match device_name {
            Some(name) => name@,
            None => normalized_endpoint_name_spec(match hostname {
                Some(s) => Some(s@),
                None => None,
            }),
        },
{
    match device_name {
        Some(name) => name,
        None => normalized_endpoint_name(hostname),
    }
}

/// Where a medium stands in the attempt order: LAN first, Bluetooth Classic
/// last.
pub open spec fn attempt_position(medium: Medium) -> nat {
    match medium {
        Medium::WifiLan => 0,
        Medium::WifiHotspot => 1,
        Medium::WifiDirect => 2,
        Medium::Ble => 3,
        Medium::Bluetooth => 4,
    }
}

/// Where a medium stands in the attempt order, computed.
pub fn attempt_index(medium: Medium) -> (r: u8)
    ensures
        r == attempt_position(medium),
{
    match medium {
        Medium::WifiLan => 0,
        Medium::WifiHotspot => 1,
        Medium::WifiDirect => 2,
        Medium::Ble => 3,
        Medium::Bluetooth => 4,
    }
}

/// One private route to a peer: its medium, and the key under which the
/// owner keeps the candidate it stands for.
#[derive(Clone, Copy, Debug, PartialEq, Eq, Structural)]
pub struct Route {
    /// The medium the route uses.
    pub medium: Medium,
    /// The owner's key for the route's candidate.
    pub key: u64,
}

/// Routes ordered by the attempt order of their media.
pub open spec fn routes_in_attempt_order(routes: Seq<Route>) -> bool {
    forall|i: int, j: int| 0 <= i < j < routes.len()
        ==> attempt_position(#[trigger] routes[i].medium) <= attempt_position(#[trigger] routes[j].medium)
}

/// No route is listed twice.
pub open spec fn routes_distinct(routes: Seq<Route>) -> bool {
    forall|i: int, j: int| 0 <= i < j < routes.len() ==> #[trigger] routes[i] != #[trigger] routes[j]
}

/// `routes` with `route` placed at `k`, where every route before `k` is tried
/// no later than it and every route from `k` on is tried after it: the place
/// a stable sort by attempt order gives a route appended to sorted routes.
pub open spec fn inserted_at(routes: Seq<Route>, route: Route, k: int, result: Seq<Route>) -> bool {
    &&& 0 <= k <= routes.len()
    &&& result == routes.take(k).push(route) + routes.skip(k)
    &&& forall|i: int| 0 <= i < k ==> attempt_position(#[trigger] routes[i].medium) <= attempt_position(route.medium)
    &&& forall|i: int| k <= i < routes.len() ==> attempt_position(#[trigger] routes[i].medium) > attempt_position(route.medium)
}

/// The candidate routes discovered for one peer, kept in attempt order
/// without repeats.
#[derive(Debug)]
pub struct PeerRoutes {
    routes: Vec<Route>,
}

impl View for PeerRoutes {
    type V = Seq<Route>;

    closed spec fn view(&self) -> Seq<Route> {
        self.routes@
    }
}

impl PeerRoutes {
    /// The routes are in attempt order and distinct.
    pub open spec fn wf(&self) -> bool {
        routes_in_attempt_order(self@) && routes_distinct(self@)
    }

    /// No route known yet.
    pub fn new() -> (r: PeerRoutes)
        ensures
            r.wf(),
            r@ == Seq::<Route>::empty(),
    {
        PeerRoutes { routes: Vec::new() }
    }

    /// Records one discovered route: a known route changes nothing, and a
    /// new one takes its place in attempt order after the routes of the same
    /// medium already known.
    pub fn remember(&mut self, route: Route)
        requires
            old(self).wf(),
        ensures
            final(self).wf(),
            old(self)@.contains(route) ==> final(self)@ == old(self)@,
            !old(self)@.contains(route) ==> exists|k: int| inserted_at(old(self)@, route, k, final(self)@),
    {
        let n = self.routes.len();
        let mut i: usize = 0;
        while i < n
            invariant
                i <= n,
                n == self.routes@.len(),
                self@ == old(self)@,
                old(self).wf(),
                forall|j: int| 0 <= j < i ==> self.routes@[j] != route,
            decreases n - i,
        {
            if self.routes[i] == route {
                assert(self@.contains(route)) by {
                    assert(self.routes@[i as int] == route);
                }
                return;
            }
            i = i + 1;
        }
        assert(!self@.contains(route)) by {
            if self@.contains(route) {
                let j = choose|j: int| 0 <= j < self@.len() && self@[j] == route;
                assert(self.routes@[j] != route);
            }
        }
        let p = attempt_index(route.medium);
        let mut k: usize = 0;
        while k < n && attempt_index(self.routes[k].medium) <= p
            invariant
                k <= n,
                n == self.routes@.len(),
                p == attempt_position(route.medium),
                self@ == old(self)@,
                old(self).wf(),
                !old(self)@.contains(route),
                forall|j: int| 0 <= j < k ==> attempt_position(#[trigger] self.routes@[j].medium) <= p,
            decreases n - k,
        {
            k = k + 1;
        }
        let ghost old_routes = self.routes@;
        proof {
            assert forall|j: int| k <= j < old_routes.len() implies attempt_position(#[trigger] old_routes[j].medium) > p by {
                assert(attempt_position(old_routes[k as int].medium) > p);
                assert(attempt_position(old_routes[k as int].medium) <= attempt_position(old_routes[j].medium));
            }
        }
        self.routes.insert(k, route);
        proof {
            let r = self.routes@;
            assert(r =~= old_routes.take(k as int).push(route) + old_routes.skip(k as int));
            assert(inserted_at(old_routes, route, k as int, r));
            assert(forall|j: int| 0 <= j < k ==> r[j] == old_routes[j]);
            assert(r[k as int] == route);
            assert(forall|j: int| k < j < r.len() ==> r[j] == old_routes[j - 1]);
            assert forall|a: int, b: int| 0 <= a < b < r.len()
                implies attempt_position(#[trigger] r[a].medium) <= attempt_position(#[trigger] r[b].medium) by {
                if b < k {
                } else if b == k {
                } else if a < k {
                    assert(r[b] == old_routes[b - 1]);
                } else if a == k {
                    assert(r[b] == old_routes[b - 1]);
                } else {
                    assert(r[a] == old_routes[a - 1]);
                    assert(r[b] == old_routes[b - 1]);
                }
            }
            assert forall|a: int, b: int| 0 <= a < b < r.len() implies #[trigger] r[a] != #[trigger] r[b] by {
                if b < k {
                } else if b == k {
                    assert(r[a] == old_routes[a]);
                } else if a < k {
                    assert(r[b] == old_routes[b - 1]);
                } else if a == k {
                    assert(r[b] == old_routes[b - 1]);
                } else {
                    assert(r[a] == old_routes[a - 1]);
                    assert(r[b] == old_routes[b - 1]);
                }
            }
            assert(!old_routes.contains(route));
        }
    }

    /// The routes in attempt order.
    pub fn routes(&self) -> (r: &[Route])
        ensures
            r@ == self@,
    {
        self.routes.as_slice()
    }
}

/// The share whose transfer was asked to stop; `0` when none is. One mark is
/// kept per endpoint: it cannot be copied, so whoever stops transfers and
/// whoever runs them share this one value.
#[derive(Debug, Default)]
pub struct TransferCancellation {
    share_id: u64,
}

impl TransferCancellation {
    /// The share currently marked for cancellation; `0` for none.
    pub closed spec fn marked(&self) -> u64 {
        self.share_id
    }

    /// No share is marked.
    pub fn new() -> (r: TransferCancellation)
        ensures
            r.marked() == 0,
    {
        TransferCancellation { share_id: 0 }
    }

    /// Marks one share for cancellation, replacing any earlier mark.
    pub fn cancel(&mut self, share_id: u64)
        ensures
            final(self).marked() == share_id,
    {
        self.share_id = share_id;
    }

    /// Clears the mark of a finished share without clearing a newer mark.
    pub fn finish(&mut self, share_id: u64)
        ensures
            final(self).marked() == if old(self).marked() == share_id { 0 } else { old(self).marked() },
    {
        if self.share_id == share_id {
            self.share_id = 0;
        }
    }

    /// Whether this share owns the current cancellation request.
    pub fn is_cancelled(&self, share_id: u64) -> (r: bool)
        ensures
            r == (self.marked() == share_id),
    {
        self.share_id == share_id
    }
}

} // verus!
