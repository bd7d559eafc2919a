use charging::{
    AuthState, ChargeError, ChargingMsg, ChargingProtocol, ChargingState, Command, Effect,
    ErrorState, Iec6185Msg, Iso15118State, ManagerHandle, MeterTagSet, Next, OcppChargerStatus,
    OcppMsg, PaymentOption, PlugState, PowerRequest, Reply, SlacStatus, NO_LIMIT,
};

/// Inserts the plug, every call succeeding; the effects are taken.
fn plug_in(m: &mut ManagerHandle) {
    assert_eq!(m.iec(&Iec6185Msg::Plugged(true)), Next::Call(Command::EnergyReset));
    let mut next = m.resume(Reply::Ack);
    if next == Next::Call(Command::StatusNotification(OcppChargerStatus::Reserved)) {
        next = m.resume(Reply::Ack);
    }
    assert_eq!(next, Next::Done(Ok(())));
    m.take_effects();
}

/// A plugged-in manager in basic (IEC) mode after a successful fallback
/// authentication with a 16 A contract; its effects are taken.
fn basic_session(ocpp: bool) -> ManagerHandle {
    let mut m = ManagerHandle::new(ocpp, true);
    plug_in(&mut m);
    assert_eq!(m.slac(&SlacStatus::Timeout), Next::Call(Command::Login));
    assert_eq!(
        m.resume(Reply::Contract { imax: 16, pmax: 11_000 }),
        Next::Call(Command::EnergyConfig { imax: 16, pmax: 11_000 })
    );
    assert_eq!(m.resume(Reply::Ack), Next::Done(Ok(())));
    m.take_effects();
    m
}

/// A basic-mode session whose second authentication failed: iso stays Iec, auth is Fail.
fn failed_basic_session() -> ManagerHandle {
    let mut m = basic_session(false);
    assert_eq!(m.slac(&SlacStatus::Timeout), Next::Call(Command::Login));
    assert_eq!(m.resume(Reply::Failed), Next::Call(Command::RelayPower(false)));
    assert_eq!(m.resume(Reply::Ack), Next::Done(Err(ChargeError::AuthenticationFailed)));
    m.take_effects();
    let s = m.get_state();
    assert_eq!(s.auth, AuthState::Fail);
    assert_eq!(s.iso, Iso15118State::Iec);
    m
}

fn sent_relay_close(effects: &[Effect]) -> bool {
    effects.contains(&Effect::Send(Command::RelayPower(true)))
}

#[test]
fn new_manager_starts_idle() {
    let mut m = ManagerHandle::new(false, false);
    let s = m.get_state();
    assert_eq!(s.plugged, PlugState::Unknown);
    assert_eq!(s.power, PowerRequest::Idle);
    assert_eq!(s.auth, AuthState::Idle);
    assert_eq!(s.iso, Iso15118State::Unset);
    assert_eq!(s.imax, NO_LIMIT);
    assert_eq!(s.pmax, NO_LIMIT);
    assert_eq!(s.payment, None);
    assert_eq!(s.reservation, None);
    assert!(m.is_ready());
    assert!(m.take_effects().is_empty());
}

#[test]
fn fallback_authentication_starts_basic_charging() {
    let mut m = ManagerHandle::new(false, true);
    assert_eq!(m.slac(&SlacStatus::Timeout), Next::Call(Command::Login));
    assert_eq!(m.get_state().auth, AuthState::Pending);
    assert!(!m.is_ready());
    assert_eq!(m.take_effects(), vec![Effect::Notify(ChargingMsg::Auth(AuthState::Pending))]);
    assert_eq!(
        m.resume(Reply::Contract { imax: 16, pmax: 11_000 }),
        Next::Call(Command::EnergyConfig { imax: 16, pmax: 11_000 })
    );
    assert_eq!(m.resume(Reply::Ack), Next::Done(Ok(())));
    assert_eq!(
        m.take_effects(),
        vec![
            Effect::Notify(ChargingMsg::Auth(AuthState::Done)),
            Effect::Send(Command::CurrentLimit(16)),
            Effect::Notify(ChargingMsg::Iso(Iso15118State::Iec)),
            Effect::Send(Command::RelayPower(true)),
            Effect::Notify(ChargingMsg::Power(PowerRequest::Start)),
            Effect::Notify(ChargingMsg::Protocol(ChargingProtocol::BasicCharge)),
        ]
    );
    let s = m.get_state();
    assert_eq!(s.auth, AuthState::Done);
    assert_eq!(s.iso, Iso15118State::Iec);
    assert_eq!(s.power, PowerRequest::Start);
    assert_eq!(s.imax, 16);
    assert!(m.is_ready());
}

#[test]
fn failed_login_opens_relay_and_reports() {
    let mut m = ManagerHandle::new(false, true);
    assert_eq!(m.slac(&SlacStatus::Timeout), Next::Call(Command::Login));
    assert_eq!(m.resume(Reply::Failed), Next::Call(Command::RelayPower(false)));
    assert_eq!(m.resume(Reply::Ack), Next::Done(Err(ChargeError::AuthenticationFailed)));
    let effects = m.take_effects();
    assert_eq!(
        effects,
        vec![
            Effect::Notify(ChargingMsg::Auth(AuthState::Pending)),
            Effect::Notify(ChargingMsg::Auth(AuthState::Fail)),
        ]
    );
    assert!(!sent_relay_close(&effects));
    let s = m.get_state();
    assert_eq!(s.auth, AuthState::Fail);
    assert_eq!(s.iso, Iso15118State::Unset);
}

#[test]
fn failed_relay_open_after_login_failure_is_a_call_failure() {
    let mut m = ManagerHandle::new(false, true);
    m.slac(&SlacStatus::Timeout);
    m.resume(Reply::Failed);
    assert_eq!(m.resume(Reply::Failed), Next::Done(Err(ChargeError::CollaboratorCallFailed)));
    assert_eq!(m.get_state().auth, AuthState::Fail);
}

#[test]
fn failed_metering_config_aborts_authentication() {
    let mut m = ManagerHandle::new(false, true);
    m.slac(&SlacStatus::Timeout);
    m.resume(Reply::Contract { imax: 16, pmax: 11_000 });
    assert_eq!(m.resume(Reply::Failed), Next::Done(Err(ChargeError::CollaboratorCallFailed)));
    let effects = m.take_effects();
    assert!(!sent_relay_close(&effects));
    assert_eq!(m.get_state().auth, AuthState::Pending);
    assert!(m.is_ready());
}

#[test]
fn contract_never_loosens_cable_rating() {
    let mut m = ManagerHandle::new(false, true);
    assert_eq!(m.iec(&Iec6185Msg::CableImax(10)), Next::Done(Ok(())));
    m.slac(&SlacStatus::Timeout);
    assert_eq!(
        m.resume(Reply::Contract { imax: 16, pmax: 11_000 }),
        Next::Call(Command::EnergyConfig { imax: 10, pmax: 11_000 })
    );
    m.resume(Reply::Ack);
    assert!(m.take_effects().contains(&Effect::Send(Command::CurrentLimit(10))));
}

#[test]
fn timeout_without_fallback_is_ignored() {
    let mut m = ManagerHandle::new(false, false);
    assert_eq!(m.slac(&SlacStatus::Timeout), Next::Done(Ok(())));
    assert_eq!(m.get_state(), ManagerHandle::new(false, false).get_state());
    assert!(m.take_effects().is_empty());
}

#[test]
fn timeout_while_charging_is_ignored() {
    let mut m = basic_session(false);
    m.iec(&Iec6185Msg::RelayOn(true));
    m.resume(Reply::Ack);
    m.take_effects();
    let before = m.get_state();
    assert_eq!(m.slac(&SlacStatus::Timeout), Next::Done(Ok(())));
    assert_eq!(m.get_state(), before);
    assert!(m.take_effects().is_empty());
}

#[test]
fn unmatched_is_ignored() {
    let mut m = ManagerHandle::new(false, true);
    assert_eq!(m.slac(&SlacStatus::Unmatched), Next::Done(Ok(())));
    assert_eq!(m.get_state().iso, Iso15118State::Unset);
    assert!(m.take_effects().is_empty());
}

#[test]
fn matched_selects_iso_mode() {
    let mut m = ManagerHandle::new(false, true);
    assert_eq!(m.slac(&SlacStatus::Matched), Next::Done(Ok(())));
    assert_eq!(m.get_state().iso, Iso15118State::Iso20);
    assert_eq!(m.take_effects(), vec![Effect::Notify(ChargingMsg::Iso(Iso15118State::Iso20))]);
}

#[test]
fn matched_classifies_recorded_payment() {
    let mut m = ManagerHandle::new(false, true);
    m.slac(&SlacStatus::Matched);
    m.set_power_request_state(PowerRequest::Idle).unwrap();
    m.take_effects();
    assert_eq!(m.set_payment_option(&ChargingMsg::Payment(PaymentOption::Eim)), Ok(()));
    assert_eq!(
        m.take_effects(),
        vec![Effect::Notify(ChargingMsg::Protocol(ChargingProtocol::SmartCharge))]
    );
    assert_eq!(m.get_state().payment, None);
}

#[test]
fn plug_in_twice_resets_metering_once() {
    let mut m = ManagerHandle::new(true, true);
    assert_eq!(m.iec(&Iec6185Msg::Plugged(true)), Next::Call(Command::EnergyReset));
    assert_eq!(
        m.resume(Reply::Energy(0)),
        Next::Call(Command::StatusNotification(OcppChargerStatus::Reserved))
    );
    assert_eq!(m.resume(Reply::Ack), Next::Done(Ok(())));
    assert_eq!(m.take_effects(), vec![Effect::Notify(ChargingMsg::Plugged(PlugState::PlugIn))]);
    assert_eq!(m.iec(&Iec6185Msg::Plugged(true)), Next::Done(Ok(())));
    assert!(m.take_effects().is_empty());
    assert_eq!(m.get_state().plugged, PlugState::PlugIn);
}

#[test]
fn plug_in_with_failed_reset_changes_nothing() {
    let mut m = ManagerHandle::new(false, true);
    assert_eq!(m.iec(&Iec6185Msg::Plugged(true)), Next::Call(Command::EnergyReset));
    assert_eq!(m.resume(Reply::Failed), Next::Done(Err(ChargeError::CollaboratorCallFailed)));
    assert_eq!(m.get_state().plugged, PlugState::Unknown);
    assert!(m.take_effects().is_empty());
}

#[test]
fn plug_out_reads_total_and_logs_out() {
    let mut m = basic_session(false);
    m.set_power_request_state(PowerRequest::Charging(32)).unwrap();
    m.take_effects();
    assert_eq!(m.iec(&Iec6185Msg::Plugged(false)), Next::Call(Command::EnergyRead));
    assert_eq!(m.resume(Reply::Energy(1_200)), Next::Call(Command::Logout(1_200)));
    assert_eq!(
        m.take_effects(),
        vec![
            Effect::Notify(ChargingMsg::Power(PowerRequest::Idle)),
            Effect::Notify(ChargingMsg::Plugged(PlugState::PlugOut)),
            Effect::Notify(ChargingMsg::Protocol(ChargingProtocol::BasicCharge)),
        ]
    );
    // a failed logout does not block the plug-out
    assert_eq!(m.resume(Reply::Failed), Next::Done(Ok(())));
    let s = m.get_state();
    assert_eq!(s.plugged, PlugState::PlugOut);
    assert_eq!(s.power, PowerRequest::Idle);
}

#[test]
fn plug_cycle_never_charges_unplugged() {
    let mut m = basic_session(false);
    assert_eq!(m.iec(&Iec6185Msg::RelayOn(true)), Next::Call(Command::CurrentLimit(16)));
    m.resume(Reply::Ack);
    assert_eq!(m.get_state().power, PowerRequest::Charging(16));
    m.iec(&Iec6185Msg::Plugged(false));
    m.resume(Reply::Energy(300));
    let s = m.get_state();
    assert_eq!(s.plugged, PlugState::PlugOut);
    assert!(!matches!(s.power, PowerRequest::Charging(_)));
    m.resume(Reply::Ack);
    assert!(!matches!(m.get_state().power, PowerRequest::Charging(_)));
}

#[test]
fn power_request_locks_plug() {
    let mut m = ManagerHandle::new(false, true);
    assert_eq!(m.iec(&Iec6185Msg::PowerRqt(true)), Next::Done(Ok(())));
    assert_eq!(m.get_state().plugged, PlugState::Lock);
    assert_eq!(m.take_effects(), vec![Effect::Notify(ChargingMsg::Plugged(PlugState::Lock))]);
    assert_eq!(m.iec(&Iec6185Msg::PowerRqt(false)), Next::Done(Ok(())));
    assert_eq!(m.get_state().plugged, PlugState::PlugIn);
    assert_eq!(m.take_effects(), vec![Effect::Notify(ChargingMsg::Plugged(PlugState::PlugIn))]);
}

#[test]
fn cable_rating_only_tightens() {
    let mut m = ManagerHandle::new(false, true);
    m.iec(&Iec6185Msg::CableImax(32));
    assert_eq!(m.get_state().imax, 32);
    m.iec(&Iec6185Msg::CableImax(40));
    assert_eq!(m.get_state().imax, 32);
    m.iec(&Iec6185Msg::CableImax(20));
    assert_eq!(m.get_state().imax, 20);
}

#[test]
fn cable_error_zeroes_ceiling() {
    let mut m = ManagerHandle::new(false, true);
    m.iec(&Iec6185Msg::CableImax(32));
    assert_eq!(m.iec(&Iec6185Msg::Error(ErrorState::ErrRelay)), Next::Done(Ok(())));
    assert_eq!(m.get_state().imax, 0);
    assert!(m.take_effects().is_empty());
}

#[test]
fn relay_closed_in_basic_mode_applies_limit_and_reports() {
    let mut m = basic_session(true);
    assert_eq!(m.iec(&Iec6185Msg::RelayOn(true)), Next::Call(Command::CurrentLimit(16)));
    assert_eq!(
        m.resume(Reply::Ack),
        Next::Call(Command::StatusNotification(OcppChargerStatus::Charging))
    );
    assert_eq!(m.resume(Reply::Ack), Next::Done(Ok(())));
    assert_eq!(
        m.take_effects(),
        vec![
            Effect::Notify(ChargingMsg::Power(PowerRequest::Charging(16))),
            Effect::Notify(ChargingMsg::Protocol(ChargingProtocol::BasicCharge)),
        ]
    );
    assert_eq!(m.get_state().power, PowerRequest::Charging(16));
}

#[test]
fn relay_closed_in_iso_mode_issues_no_limit() {
    let mut m = ManagerHandle::new(false, true);
    plug_in(&mut m);
    m.slac(&SlacStatus::Matched);
    m.iec(&Iec6185Msg::CableImax(32));
    m.take_effects();
    assert_eq!(m.iec(&Iec6185Msg::RelayOn(true)), Next::Done(Ok(())));
    assert_eq!(
        m.take_effects(),
        vec![Effect::Notify(ChargingMsg::Power(PowerRequest::Charging(32)))]
    );
}

#[test]
fn relay_closed_with_plug_out_is_refused() {
    let mut m = basic_session(false);
    m.iec(&Iec6185Msg::RelayOn(false));
    assert_eq!(m.resume(Reply::Energy(800)), Next::Done(Ok(())));
    m.take_effects();
    let before = m.get_state();
    assert_eq!(before.plugged, PlugState::PlugOut);
    assert_eq!(m.iec(&Iec6185Msg::RelayOn(true)), Next::Done(Err(ChargeError::UnsafeState)));
    assert_eq!(m.get_state(), before);
    assert!(m.take_effects().is_empty());
}

#[test]
fn relay_closed_without_authentication_is_refused() {
    let mut m = ManagerHandle::new(false, true);
    plug_in(&mut m);
    assert_eq!(m.iec(&Iec6185Msg::RelayOn(true)), Next::Done(Err(ChargeError::UnsafeState)));
    assert_eq!(m.get_state().power, PowerRequest::Idle);
    assert!(m.take_effects().is_empty());
}

#[test]
fn payment_mode_is_classified_when_recorded() {
    let mut m = ManagerHandle::new(false, true);
    plug_in(&mut m);
    m.slac(&SlacStatus::Matched);
    m.take_effects();
    assert_eq!(m.set_payment_option(&ChargingMsg::Payment(PaymentOption::Pnc)), Ok(()));
    assert_eq!(
        m.take_effects(),
        vec![Effect::Notify(ChargingMsg::Protocol(ChargingProtocol::PlugAndCharge))]
    );
    assert_eq!(m.get_state().payment, None);
    m.iec(&Iec6185Msg::RelayOn(true));
    assert_eq!(
        m.take_effects(),
        vec![Effect::Notify(ChargingMsg::Power(PowerRequest::Charging(NO_LIMIT)))]
    );
}

#[test]
fn other_messages_do_not_set_payment() {
    let mut m = ManagerHandle::new(false, true);
    assert_eq!(m.set_payment_option(&ChargingMsg::Plugged(PlugState::Lock)), Ok(()));
    assert_eq!(m.get_state(), ManagerHandle::new(false, true).get_state());
}

#[test]
fn relay_opened_stops_session() {
    let mut m = basic_session(false);
    assert_eq!(m.iec(&Iec6185Msg::RelayOn(false)), Next::Call(Command::EnergyRead));
    assert_eq!(m.resume(Reply::Energy(5_400)), Next::Done(Ok(())));
    let s = m.get_state();
    assert_eq!(s.power, PowerRequest::Stop(5_400));
    assert_eq!(s.plugged, PlugState::PlugOut);
    assert_eq!(
        m.take_effects(),
        vec![
            Effect::Notify(ChargingMsg::Power(PowerRequest::Stop(5_400))),
            Effect::Notify(ChargingMsg::Plugged(PlugState::PlugOut)),
            Effect::Notify(ChargingMsg::Protocol(ChargingProtocol::BasicCharge)),
        ]
    );
}

#[test]
fn meter_reply_without_total_is_a_call_failure() {
    let mut m = basic_session(false);
    m.iec(&Iec6185Msg::RelayOn(false));
    assert_eq!(m.resume(Reply::Ack), Next::Done(Err(ChargeError::CollaboratorCallFailed)));
    assert_eq!(m.get_state().power, PowerRequest::Start);
}

#[test]
fn available_current_drop_applies_limit() {
    let mut m = basic_session(false);
    m.set_power_request_state(PowerRequest::Charging(32)).unwrap();
    m.take_effects();
    assert_eq!(m.engy_imax(16), Next::Call(Command::CurrentLimit(16)));
    assert_eq!(m.resume(Reply::Ack), Next::Done(Ok(())));
    assert_eq!(
        m.take_effects(),
        vec![
            Effect::Notify(ChargingMsg::Power(PowerRequest::Charging(16))),
            Effect::Notify(ChargingMsg::Protocol(ChargingProtocol::BasicCharge)),
        ]
    );
    assert_eq!(m.get_state().power, PowerRequest::Charging(16));
}

#[test]
fn available_current_above_cap_does_nothing() {
    let mut m = basic_session(false);
    m.set_power_request_state(PowerRequest::Charging(32)).unwrap();
    m.take_effects();
    let before = m.get_state();
    assert_eq!(m.engy_imax(40), Next::Done(Ok(())));
    assert!(m.take_effects().is_empty());
    assert_eq!(m.get_state(), before);
}

#[test]
fn available_current_ignored_when_not_charging() {
    let mut m = basic_session(false);
    assert_eq!(m.engy_imax(6), Next::Done(Ok(())));
    assert!(m.take_effects().is_empty());
}

#[test]
fn available_current_in_iso_mode_needs_no_call() {
    let mut m = ManagerHandle::new(false, true);
    plug_in(&mut m);
    m.slac(&SlacStatus::Matched);
    m.set_power_request_state(PowerRequest::Charging(32)).unwrap();
    m.take_effects();
    assert_eq!(m.engy_imax(10), Next::Done(Ok(())));
    assert_eq!(
        m.take_effects(),
        vec![Effect::Notify(ChargingMsg::Power(PowerRequest::Charging(10)))]
    );
    assert_eq!(m.get_state().imax, 10);
}

#[test]
fn over_current_opens_relay_and_idles() {
    let mut m = basic_session(false);
    m.set_power_request_state(PowerRequest::Charging(16)).unwrap();
    m.take_effects();
    assert_eq!(m.engy_iover(&MeterTagSet::OverCurrent), Next::Call(Command::RelayPower(false)));
    assert_eq!(m.resume(Reply::Ack), Next::Done(Ok(())));
    assert_eq!(m.get_state().power, PowerRequest::Idle);
    assert_eq!(
        m.take_effects(),
        vec![
            Effect::Notify(ChargingMsg::Power(PowerRequest::Idle)),
            Effect::Notify(ChargingMsg::Protocol(ChargingProtocol::BasicCharge)),
        ]
    );
    assert_eq!(m.engy_iover(&MeterTagSet::OverLimit), Next::Done(Ok(())));
}

#[test]
fn remote_power_limit_tightens_in_basic_mode() {
    let mut m = basic_session(true);
    assert_eq!(m.ocpp(&OcppMsg::PowerLimit(10)), Next::Call(Command::CurrentLimit(10)));
    assert_eq!(m.resume(Reply::Ack), Next::Done(Ok(())));
    assert_eq!(m.get_state().imax, 10);
    assert_eq!(m.ocpp(&OcppMsg::PowerLimit(12)), Next::Done(Ok(())));
    assert_eq!(m.get_state().imax, 10);
}

#[test]
fn remote_reset_opens_relay() {
    let mut m = basic_session(true);
    assert_eq!(m.ocpp(&OcppMsg::Reset), Next::Call(Command::RelayPower(false)));
    assert_eq!(m.resume(Reply::Failed), Next::Done(Err(ChargeError::CollaboratorCallFailed)));
}

#[test]
fn remote_transaction_stop_logs_out() {
    let mut m = basic_session(true);
    m.set_power_request_state(PowerRequest::Charging(16)).unwrap();
    m.take_effects();
    assert_eq!(m.ocpp(&OcppMsg::Transaction(false, 3)), Next::Call(Command::RelayPower(false)));
    assert_eq!(m.resume(Reply::Energy(700)), Next::Call(Command::Logout(700)));
    assert_eq!(m.resume(Reply::Ack), Next::Done(Ok(())));
    assert_eq!(m.get_state().power, PowerRequest::Idle);
    assert!(m.take_effects().contains(&Effect::Notify(ChargingMsg::Power(PowerRequest::Idle))));
}

#[test]
fn remote_transaction_start_needs_authentication() {
    let mut m = failed_basic_session();
    let before = m.get_state();
    assert_eq!(
        m.ocpp(&OcppMsg::Transaction(true, 4)),
        Next::Done(Err(ChargeError::AuthenticationFailed))
    );
    assert_eq!(m.get_state(), before);
    assert!(m.take_effects().is_empty());
    let mut ok = basic_session(false);
    assert_eq!(ok.ocpp(&OcppMsg::Transaction(true, 4)), Next::Call(Command::RelayPower(true)));
}

#[test]
fn remote_power_control() {
    let mut m = basic_session(false);
    assert_eq!(m.powerctrl(true), Next::Call(Command::RelayPower(true)));
    assert_eq!(m.resume(Reply::Ack), Next::Done(Ok(())));
    m.set_power_request_state(PowerRequest::Charging(16)).unwrap();
    assert_eq!(m.powerctrl(false), Next::Call(Command::RelayPower(false)));
    assert_eq!(m.resume(Reply::Ack), Next::Done(Ok(())));
    assert_eq!(m.get_state().power, PowerRequest::Idle);
}

#[test]
fn remote_power_refused_without_authentication() {
    let mut m = failed_basic_session();
    assert_eq!(m.powerctrl(true), Next::Done(Err(ChargeError::AuthenticationFailed)));
    assert!(m.is_ready());
    assert!(m.take_effects().is_empty());
    assert_eq!(m.powerctrl(false), Next::Call(Command::RelayPower(false)));
}

#[test]
fn busy_manager_refuses_other_operations() {
    let mut m = ManagerHandle::new(false, true);
    assert_eq!(m.slac(&SlacStatus::Timeout), Next::Call(Command::Login));
    m.take_effects();
    assert_eq!(
        m.iec(&Iec6185Msg::PowerRqt(true)),
        Next::Done(Err(ChargeError::StateAccessConflict))
    );
    assert_eq!(
        m.set_plug_state(PlugState::Lock),
        Err(ChargeError::StateAccessConflict)
    );
    assert_eq!(m.get_state().plugged, PlugState::Unknown);
    assert!(m.take_effects().is_empty());
    assert_eq!(
        m.resume(Reply::Contract { imax: 20, pmax: 7_000 }),
        Next::Call(Command::EnergyConfig { imax: 20, pmax: 7_000 })
    );
}

#[test]
fn reply_without_call_is_refused() {
    let mut m = ManagerHandle::new(false, true);
    assert_eq!(m.resume(Reply::Ack), Next::Done(Err(ChargeError::StateAccessConflict)));
    assert_eq!(m.get_state(), ManagerHandle::new(false, true).get_state());
}

#[test]
fn push_state_publishes_snapshot() {
    let mut m = ManagerHandle::new(false, true);
    m.iec(&Iec6185Msg::CableImax(25));
    m.push_state();
    let s: ChargingState = m.get_state();
    assert_eq!(m.take_effects(), vec![Effect::Notify(ChargingMsg::State(s))]);
    assert_eq!(s.imax, 25);
}

#[test]
fn setters_override_and_publish() {
    let mut m = ManagerHandle::new(false, true);
    assert_eq!(m.set_plug_state(PlugState::Error), Ok(()));
    assert_eq!(m.set_power_request_state(PowerRequest::Stop(9)), Ok(()));
    let s = m.get_state();
    assert_eq!(s.plugged, PlugState::Error);
    assert_eq!(s.power, PowerRequest::Stop(9));
    assert_eq!(
        m.take_effects(),
        vec![
            Effect::Notify(ChargingMsg::Plugged(PlugState::Error)),
            Effect::Notify(ChargingMsg::Power(PowerRequest::Stop(9))),
        ]
    );
}

#[test]
fn setters_refuse_unsafe_charging() {
    let mut m = ManagerHandle::new(false, true);
    assert_eq!(
        m.set_power_request_state(PowerRequest::Charging(16)),
        Err(ChargeError::UnsafeState)
    );
    let mut charging = basic_session(false);
    charging.set_power_request_state(PowerRequest::Charging(16)).unwrap();
    charging.take_effects();
    assert_eq!(charging.set_plug_state(PlugState::PlugOut), Err(ChargeError::UnsafeState));
    assert_eq!(charging.get_state().plugged, PlugState::PlugIn);
    assert!(charging.take_effects().is_empty());
}
