use peach_menu::state_machine::{Event, State};

#[test]
fn codes_map_to_the_seven_buttons() {
    assert_eq!(Event::from_code(0), Event::Center);
    assert_eq!(Event::from_code(1), Event::Left);
    assert_eq!(Event::from_code(2), Event::Right);
    assert_eq!(Event::from_code(3), Event::Up);
    assert_eq!(Event::from_code(4), Event::Down);
    assert_eq!(Event::from_code(5), Event::A);
    assert_eq!(Event::from_code(6), Event::B);
}

#[test]
fn out_of_range_codes_are_unknown() {
    assert_eq!(Event::from_code(7), Event::Unknown);
    assert_eq!(Event::from_code(8), Event::Unknown);
    assert_eq!(Event::from_code(100), Event::Unknown);
    assert_eq!(Event::from_code(255), Event::Unknown);
}

#[test]
fn unknown_leaves_screens_without_a_rule_unchanged() {
    assert_eq!(State::Logo.next(Event::Unknown), State::Logo);
    assert_eq!(State::Network.next(Event::Unknown), State::Network);
    assert_eq!(State::NetworkConf.next(Event::Unknown), State::NetworkConf);
    assert_eq!(State::Stats.next(Event::Unknown), State::Stats);
    assert_eq!(State::PowerOn.next(Event::Unknown), State::PowerOn);
    assert_eq!(State::Shutdown.next(Event::Unknown), State::Shutdown);
}

#[test]
fn unmatched_pairs_fall_back_to_identity() {
    assert_eq!(State::Logo.next(Event::Down), State::Logo);
    assert_eq!(State::Logo.next(Event::B), State::Logo);
    assert_eq!(State::Network.next(Event::Down), State::Network);
    assert_eq!(State::Stats.next(Event::A), State::Stats);
    assert_eq!(State::PowerOn.next(Event::Center), State::PowerOn);
    assert_eq!(State::Shutdown.next(Event::A), State::Shutdown);
    assert_eq!(State::ActivateAp.next(Event::A), State::ActivateAp);
    assert_eq!(State::ActivateClient.next(Event::A), State::ActivateClient);
}

#[test]
fn a_on_logo_enters_the_home_root() {
    assert_eq!(State::Logo.next(Event::A), State::Home(0));
}

#[test]
fn home_cursor_moves_one_row_per_event() {
    let s1 = State::Home(0).next(Event::Down);
    assert_eq!(s1, State::Home(1));
    let s2 = s1.next(Event::Down);
    assert_eq!(s2, State::Home(2));
    let s3 = s2.next(Event::Up);
    assert_eq!(s3, State::Home(1));
}

#[test]
fn home_cursor_wraps_between_first_and_last_row() {
    assert_eq!(State::Home(0).next(Event::Up), State::Home(4));
    assert_eq!(State::Home(1).next(Event::Up), State::Home(4));
    assert_eq!(State::Home(4).next(Event::Down), State::Home(1));
}

#[test]
fn home_entries_open_their_screens() {
    assert_eq!(State::Home(0).next(Event::A), State::Network);
    assert_eq!(State::Home(1).next(Event::A), State::Network);
    assert_eq!(State::Home(2).next(Event::A), State::Stats);
    assert_eq!(State::Home(3).next(Event::A), State::PowerOff);
    assert_eq!(State::Home(4).next(Event::A), State::Shutdown);
}

#[test]
fn b_backs_out_of_home_to_the_logo() {
    assert_eq!(State::Home(0).next(Event::B), State::Logo);
    assert_eq!(State::Home(3).next(Event::B), State::Logo);
}

#[test]
fn out_of_range_home_row_recovers_to_the_root() {
    assert_eq!(State::Home(9).next(Event::Down), State::Home(0));
    assert_eq!(State::Home(200).next(Event::Center), State::Home(0));
    assert_eq!(State::Home(9).next(Event::B), State::Logo);
}

#[test]
fn network_screens_navigate_between_modes() {
    assert_eq!(State::Network.next(Event::A), State::NetworkConf);
    assert_eq!(State::Network.next(Event::B), State::Home(0));
    assert_eq!(State::NetworkConf.next(Event::Down), State::NetworkConfAp);
    assert_eq!(State::NetworkConf.next(Event::A), State::ActivateClient);
    assert_eq!(State::NetworkConfAp.next(Event::A), State::ActivateAp);
    assert_eq!(State::NetworkConfAp.next(Event::Up), State::NetworkConfClient);
    assert_eq!(State::NetworkConfClient.next(Event::Down), State::NetworkConfAp);
    assert_eq!(State::ActivateAp.next(Event::B), State::Network);
    assert_eq!(State::ActivateClient.next(Event::Up), State::NetworkConfAp);
}

#[test]
fn any_event_wakes_a_powered_off_display() {
    assert_eq!(State::PowerOff.next(Event::Center), State::PowerOn);
    assert_eq!(State::PowerOff.next(Event::Unknown), State::PowerOn);
    assert_eq!(State::PowerOff.next(Event::B), State::PowerOn);
}
