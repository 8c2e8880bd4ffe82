use vstd::prelude::*;
use crate::probe::{loopback, loopback_text};

verus! {

/// The address on which the sidecar listens on every interface.
pub open spec fn all_interfaces_text() -> Seq<char> {
    seq!['0', '.', '0', '.', '0', '.', '0']
}

/// The setting value that turns LAN access off.
pub open spec fn lan_off_text() -> Seq<char> {
    seq!['f', 'a', 'l', 's', 'e']
}

/// LAN access is allowed unless the setting is present and reads `false`.
pub fn allow_lan_from(setting: &Option<String>) -> (r: bool)
    ensures
        r == (setting matches Some(v) ==> v@ != lan_off_text()),
{
    match setting {
        Some(value) => {
            proof {
                reveal_strlit("false");
            }
            let off = String::from_str("false");
            assert(off@ =~= lan_off_text());
            !(*value == off)
        },
        None => true,
    }
}

/// The interface the sidecar binds: every interface when LAN access is
/// allowed, loopback only otherwise.
pub fn bind_host(allow_lan: bool) -> (r: String)
    ensures
        r@ == (if allow_lan {
            all_interfaces_text()
        } else {
            loopback_text()
        }),
{
    if allow_lan {
        proof {
            reveal_strlit("0.0.0.0");
        }
        let r = String::from_str("0.0.0.0");
        assert(r@ =~= all_interfaces_text());
        r
    } else {
        loopback()
    }
}

/// The address the browser is pointed at. `route` is the local address the
/// host would send outbound traffic from, or `None` when finding it failed at
/// any step. Without LAN access it is always loopback; with it, the routed
/// address when there is one and loopback otherwise.
pub fn resolve_ui_host(allow_lan: bool, route: Option<String>) -> (r: String)
    ensures
        r@ == (if allow_lan && route is Some {
            route->0@
        } else {
            loopback_text()
        }),
{
    if !allow_lan {
        return loopback();
    }
    match route {
        Some(address) => address,
        None => loopback(),
    }
}

} // verus!
