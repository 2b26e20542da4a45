//! A peer is reached: directly where that can work, and otherwise through a
//! relay.

use vstd::prelude::*;
use vstd::utf8::{encode_utf8, valid_utf8};

use crate::sos_config::SosConfig;
use crate::sos_rendezvous::{
    handle_punch_hole, handle_relay_fallback, handle_request_relay, nat_from_number, relay_for,
    send_local_addr_fla, test_nat_type, FetchLocalAddr, LocalAddr, NatType, Punch, PunchAction,
    PunchHole, PunchPhase, RelayAction, RelayEvent, RelayPhase, RelayPlan, RequestRelay,
};
use crate::sos_rendezvous::utf8_lossy;

verus! {

// ---------------------------------------------------------------- NAT
/// A NAT is asymmetric, which has the number 1, if the server saw the same
/// port on both connections, and it is taken for symmetric, which has the
/// number 2, in every other case; and that is noted.
pub proof fn same_port_twice_is_asymmetric(
    first: Option<i32>,
    second: Option<i32>,
    slot: &mut Option<i32>,
    r: NatType,
)
    requires
        call_ensures(test_nat_type, (first, second, slot), r),
    ensures
        r == NatType::Asymmetric <==> first is Some && second is Some && first->0 == second->0
            && first->0 > 0,
        r == NatType::Asymmetric || r == NatType::Symmetric,
        r == NatType::Asymmetric ==> *final(slot) == Some(1i32),
        r == NatType::Symmetric ==> *final(slot) == Some(2i32),
{
}

/// The number of a kind of NAT gives the kind back, and any other number is
/// of an unknown one.
pub proof fn number_gives_the_kind_of_nat(n: i32, r: NatType)
    requires
        call_ensures(nat_from_number, (n,), r),
    ensures
        r == NatType::Asymmetric <==> n == 1,
        r == NatType::Symmetric <==> n == 2,
{
}

// ---------------------------------------------------------------- direct
/// Behind a symmetric NAT, at either end, and without an address, a peer
/// comes through a relay.
pub proof fn symmetric_nat_means_relay(
    ph: &PunchHole,
    our_nat: i32,
    r: (Punch, PunchAction),
)
    requires
        call_ensures(handle_punch_hole, (ph, our_nat), r),
        ph.nat_type == NatType::Symmetric || our_nat == 2 || ph.socket_addr@.len() == 0,
    ensures
        r.1 == PunchAction::Relay,
        r.0.phase == PunchPhase::Ended,
        r.0.v6_addr@ == utf8_lossy(ph.socket_addr_v6@),
{
}

/// In every other case it is tried at its address first, and the other
/// address is kept for later.
pub proof fn peer_is_tried_at_its_address(
    ph: &PunchHole,
    our_nat: i32,
    r: (Punch, PunchAction),
)
    requires
        call_ensures(handle_punch_hole, (ph, our_nat), r),
        ph.nat_type != NatType::Symmetric,
        our_nat != 2,
        ph.socket_addr@.len() > 0,
    ensures
        r.1 matches PunchAction::Connect(addr) && {
            &&& addr@ == utf8_lossy(ph.socket_addr@)
            &&& valid_utf8(ph.socket_addr@) ==> encode_utf8(addr@) == ph.socket_addr@
        },
        r.0.v6_addr@ == utf8_lossy(ph.socket_addr_v6@),
        r.0.phase == PunchPhase::First,
        r.0.v6_addr@.len() == 0 <==> ph.socket_addr_v6@.len() == 0,
        valid_utf8(ph.socket_addr_v6@) ==> encode_utf8(r.0.v6_addr@) == ph.socket_addr_v6@,
{
}

/// A peer that is reached is served. One that is not is tried at its other
/// address, if it has one and that was not tried yet, and then through a
/// relay.
pub proof fn addresses_are_tried_in_turn(p: &mut Punch, ok: bool, r: PunchAction)
    requires
        call_ensures(Punch::connected, (p, ok), r),
        old(p).phase == PunchPhase::First || old(p).phase == PunchPhase::Second,
    ensures
        final(p).v6_addr == old(p).v6_addr,
        ok ==> r == PunchAction::Serve && final(p).phase == PunchPhase::Ended,
        !ok && old(p).phase == PunchPhase::First && old(p).v6_addr@.len() > 0 ==> {
            &&& r matches PunchAction::Connect(addr)
            &&& addr@ == old(p).v6_addr@
            &&& final(p).phase == PunchPhase::Second
        },
        !ok && (old(p).phase == PunchPhase::Second || old(p).v6_addr@.len() == 0) ==> {
            &&& r == PunchAction::Relay
            &&& final(p).phase == PunchPhase::Ended
        },
{
}

// ---------------------------------------------------------------- relay
/// Whether a plan holds what both ends need, which does not depend on how the
/// peer came: the server is the one of the settings, and both ends hear the
/// same name.
pub open spec fn is_plan(
    plan: RelayPlan,
    config: SosConfig,
    default_pub_key: Seq<char>,
) -> bool {
    &&& plan.phase == RelayPhase::New
    &&& plan.server@ == config.rendezvous_server@
    &&& plan.request.uuid@ == plan.response.uuid@
    &&& plan.response.id@ == config.id@
    &&& plan.response.version@ == "1.4.4"@
    &&& config.server_pub_key@.len() > 0 ==> plan.request.licence_key@ == config.server_pub_key@
    &&& config.server_pub_key@.len() == 0 ==> plan.request.licence_key@ == default_pub_key
}

/// Whether a name is one that was made: sixteen letters and digits.
pub open spec fn is_made_name(name: Seq<char>) -> bool {
    &&& name.len() == 16
    &&& forall|i: int|
        0 <= i < name.len() ==> {
            let c = #[trigger] name[i];
            ('a' <= c && c <= 'z') || ('A' <= c && c <= 'Z') || ('0' <= c && c <= '9')
        }
}

/// A peer that cannot be reached directly comes through the relay of the
/// settings, where there is one, and otherwise through the one that the
/// server named. The server hears the address of the peer as it gave it.
pub proof fn relay_of_the_settings_goes_first(
    ph: &PunchHole,
    config: &SosConfig,
    default_pub_key: &str,
    r: RelayPlan,
)
    requires
        call_ensures(relay_for, (ph, config, default_pub_key), r),
    ensures
        is_plan(r, *config, default_pub_key@),
        config.relay_server@.len() > 0 ==> r.response.relay_server@ == config.relay_server@,
        config.relay_server@.len() == 0 ==> r.response.relay_server@ == ph.relay_server@,
        r.response.socket_addr@ == ph.socket_addr@,
        r.request.id@.len() == 0,
        is_made_name(r.response.uuid@),
{
}

/// A peer that asked for a relay is met at the one that it named, under the
/// name that it gave the connection, or a made one if it gave none. One that
/// named no relay is not met.
pub proof fn peer_is_met_at_its_relay(
    rr: &RequestRelay,
    config: &SosConfig,
    default_pub_key: &str,
    r: Option<RelayPlan>,
)
    requires
        call_ensures(handle_request_relay, (rr, config, default_pub_key), r),
    ensures
        r is None <==> rr.relay_server@.len() == 0,
        r matches Some(plan) ==> {
            &&& is_plan(plan, *config, default_pub_key@)
            &&& plan.response.relay_server@ == rr.relay_server@
            &&& plan.response.socket_addr@ == rr.socket_addr@
            &&& plan.request.id@ == rr.id@
            &&& rr.uuid@.len() > 0 ==> plan.response.uuid@ == rr.uuid@
            &&& rr.uuid@.len() == 0 ==> is_made_name(plan.response.uuid@)
        },
{
}

/// A plan is made of what it was asked for with.
pub proof fn plan_is_made_of_what_was_given(
    relay_host: &str,
    config: &SosConfig,
    peer_socket_addr: &[u8],
    uuid: Option<String>,
    peer_id: &str,
    default_pub_key: &str,
    r: RelayPlan,
)
    requires
        call_ensures(
            handle_relay_fallback,
            (relay_host, config, peer_socket_addr, uuid, peer_id, default_pub_key),
            r,
        ),
    ensures
        is_plan(r, *config, default_pub_key@),
        r.response.relay_server@ == relay_host@,
        r.response.socket_addr@ == peer_socket_addr@,
        r.request.id@ == peer_id@,
        uuid matches Some(name) ==> r.response.uuid@ == name@,
        uuid is None ==> is_made_name(r.response.uuid@),
{
}

/// On the way through a relay the server is told first, at port 21116 if it
/// names none; once it was, the relay is asked, at port 21117 if it names
/// none; once it was, the peer is served. What fails on the way ends it. The
/// messages stay as they were planned.
pub proof fn relay_is_taken_step_by_step(plan: &mut RelayPlan, event: RelayEvent, r: RelayAction)
    requires
        call_ensures(RelayPlan::step, (plan, event), r),
    ensures
        final(plan).server == old(plan).server,
        final(plan).response == old(plan).response,
        final(plan).request == old(plan).request,
        old(plan).phase == RelayPhase::New && event == RelayEvent::Start ==> {
            &&& r == RelayAction::Tell(21116)
            &&& final(plan).phase == RelayPhase::Telling
        },
        old(plan).phase == RelayPhase::Telling && event == RelayEvent::Told(true) ==> {
            &&& r == RelayAction::Ask(21117)
            &&& final(plan).phase == RelayPhase::Asking
        },
        old(plan).phase == RelayPhase::Asking && event == RelayEvent::Asked(true) ==> r
            == RelayAction::Serve,
        old(plan).phase == RelayPhase::Telling && event == RelayEvent::Told(false) ==> r
            == RelayAction::Fail,
        old(plan).phase == RelayPhase::Asking && event == RelayEvent::Asked(false) ==> r
            == RelayAction::Fail,
        r == RelayAction::Serve || r == RelayAction::Fail ==> final(plan).phase
            == RelayPhase::Ended,
        r == RelayAction::Nothing ==> final(plan).phase == old(plan).phase,
        old(plan).phase == RelayPhase::Ended ==> r == RelayAction::Nothing,
        !(event is Start && old(plan).phase == RelayPhase::New) && !(event is Told && old(
            plan,
        ).phase == RelayPhase::Telling) && !(event is Asked && old(plan).phase
            == RelayPhase::Asking) ==> r == RelayAction::Nothing,
{
}

// ---------------------------------------------------------------- local
/// A peer of the same network hears who this device is, the two addresses in
/// their places, and the relay that the server named.
pub proof fn local_peer_hears_the_addresses(
    fla: &FetchLocalAddr,
    config: &SosConfig,
    peer_addr: Vec<u8>,
    own_addr: Vec<u8>,
    r: LocalAddr,
)
    requires
        call_ensures(send_local_addr_fla, (fla, config, peer_addr, own_addr), r),
    ensures
        r.id@ == config.id@,
        r.socket_addr == peer_addr,
        r.local_addr == own_addr,
        r.relay_server@ == fla.relay_server@,
        r.version@ == "1.4.4"@,
{
}

} // verus!
