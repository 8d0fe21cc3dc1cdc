use ratatui_termina::modifier::{diff_modifiers, Modifier, SgrModifiers};

fn m(bits: u16) -> Modifier {
    Modifier::from_bits_truncate(bits)
}

fn codes(from: u16, to: u16) -> u32 {
    diff_modifiers(m(from), m(to)).bits()
}

#[test]
fn nothing_changes_nothing_sent() {
    for bits in 0..=Modifier::ALL {
        assert!(diff_modifiers(m(bits), m(bits)).is_empty());
    }
}

#[test]
fn each_attribute_has_its_turn_on_code() {
    assert_eq!(codes(0, Modifier::BOLD), SgrModifiers::INTENSITY_BOLD);
    assert_eq!(codes(0, Modifier::DIM), SgrModifiers::INTENSITY_DIM);
    assert_eq!(codes(0, Modifier::ITALIC), SgrModifiers::ITALIC);
    assert_eq!(codes(0, Modifier::UNDERLINED), SgrModifiers::UNDERLINE_SINGLE);
    assert_eq!(codes(0, Modifier::SLOW_BLINK), SgrModifiers::BLINK_SLOW);
    assert_eq!(codes(0, Modifier::RAPID_BLINK), SgrModifiers::BLINK_RAPID);
    assert_eq!(codes(0, Modifier::REVERSED), SgrModifiers::REVERSE);
    assert_eq!(codes(0, Modifier::HIDDEN), SgrModifiers::INVISIBLE);
    assert_eq!(codes(0, Modifier::CROSSED_OUT), SgrModifiers::STRIKE_THROUGH);
}

#[test]
fn each_attribute_has_its_turn_off_code() {
    assert_eq!(codes(Modifier::BOLD, 0), SgrModifiers::INTENSITY_NORMAL);
    assert_eq!(codes(Modifier::DIM, 0), SgrModifiers::INTENSITY_NORMAL);
    assert_eq!(codes(Modifier::ITALIC, 0), SgrModifiers::NO_ITALIC);
    assert_eq!(codes(Modifier::UNDERLINED, 0), SgrModifiers::UNDERLINE_NONE);
    assert_eq!(codes(Modifier::SLOW_BLINK, 0), SgrModifiers::BLINK_NONE);
    assert_eq!(codes(Modifier::RAPID_BLINK, 0), SgrModifiers::BLINK_NONE);
    assert_eq!(codes(Modifier::REVERSED, 0), SgrModifiers::NO_REVERSE);
    assert_eq!(codes(Modifier::HIDDEN, 0), SgrModifiers::NO_INVISIBLE);
    assert_eq!(codes(Modifier::CROSSED_OUT, 0), SgrModifiers::NO_STRIKE_THROUGH);
}

#[test]
fn bold_and_dim_going_away_share_one_code() {
    assert_eq!(codes(Modifier::BOLD | Modifier::DIM, 0), SgrModifiers::INTENSITY_NORMAL);
}

#[test]
fn both_blink_rates_going_away_share_one_code() {
    assert_eq!(codes(Modifier::SLOW_BLINK | Modifier::RAPID_BLINK, 0), SgrModifiers::BLINK_NONE);
}

#[test]
fn bold_replaced_by_dim_sends_no_normal_intensity() {
    assert_eq!(codes(Modifier::BOLD, Modifier::DIM), SgrModifiers::INTENSITY_DIM);
}

#[test]
fn dim_replaced_by_bold_sends_normal_intensity_too() {
    assert_eq!(
        codes(Modifier::DIM, Modifier::BOLD),
        SgrModifiers::INTENSITY_NORMAL | SgrModifiers::INTENSITY_BOLD
    );
}

#[test]
fn bold_going_away_beside_a_staying_dim_sends_normal_intensity() {
    assert_eq!(codes(Modifier::BOLD | Modifier::DIM, Modifier::DIM), SgrModifiers::INTENSITY_NORMAL);
}

#[test]
fn slow_blink_replaced_by_rapid_blink() {
    assert_eq!(
        codes(Modifier::SLOW_BLINK, Modifier::RAPID_BLINK),
        SgrModifiers::BLINK_NONE | SgrModifiers::BLINK_RAPID
    );
}

#[test]
fn unchanged_attributes_send_nothing() {
    assert_eq!(
        codes(Modifier::ITALIC | Modifier::BOLD, Modifier::ITALIC | Modifier::REVERSED),
        SgrModifiers::INTENSITY_NORMAL | SgrModifiers::REVERSE
    );
}

#[test]
fn a_difference_never_resets() {
    for from in 0..=Modifier::ALL {
        for to in [0, Modifier::ALL, Modifier::BOLD, Modifier::ITALIC | Modifier::HIDDEN] {
            assert!(!diff_modifiers(m(from), m(to)).contains(SgrModifiers::RESET));
        }
    }
}

// What a terminal shows after it was showing `state` and received `codes`:
// the shared turn-off code of a family first, then the turn-on codes.
fn apply(state: u16, codes: u32) -> u16 {
    let mut s = state;
    let table: [(u32, u16, u16); 15] = [
        (SgrModifiers::INTENSITY_NORMAL, Modifier::BOLD | Modifier::DIM, 0),
        (SgrModifiers::INTENSITY_DIM, Modifier::BOLD | Modifier::DIM, Modifier::DIM),
        (SgrModifiers::INTENSITY_BOLD, Modifier::BOLD | Modifier::DIM, Modifier::BOLD),
        (SgrModifiers::UNDERLINE_NONE, Modifier::UNDERLINED, 0),
        (SgrModifiers::UNDERLINE_SINGLE, 0, Modifier::UNDERLINED),
        (SgrModifiers::BLINK_NONE, Modifier::SLOW_BLINK | Modifier::RAPID_BLINK, 0),
        (SgrModifiers::BLINK_SLOW, Modifier::SLOW_BLINK | Modifier::RAPID_BLINK, Modifier::SLOW_BLINK),
        (SgrModifiers::BLINK_RAPID, Modifier::SLOW_BLINK | Modifier::RAPID_BLINK, Modifier::RAPID_BLINK),
        (SgrModifiers::ITALIC, 0, Modifier::ITALIC),
        (SgrModifiers::NO_ITALIC, Modifier::ITALIC, 0),
        (SgrModifiers::REVERSE, 0, Modifier::REVERSED),
        (SgrModifiers::NO_REVERSE, Modifier::REVERSED, 0),
        (SgrModifiers::INVISIBLE, 0, Modifier::HIDDEN),
        (SgrModifiers::NO_INVISIBLE, Modifier::HIDDEN, 0),
        (SgrModifiers::STRIKE_THROUGH, 0, Modifier::CROSSED_OUT),
    ];
    for (code, off, on) in table {
        if codes & code != 0 {
            s = (s & !off) | on;
        }
    }
    if codes & SgrModifiers::NO_STRIKE_THROUGH != 0 {
        s &= !Modifier::CROSSED_OUT;
    }
    s
}

fn exclusive(bits: u16) -> bool {
    bits & (Modifier::BOLD | Modifier::DIM) != (Modifier::BOLD | Modifier::DIM)
        && bits & (Modifier::SLOW_BLINK | Modifier::RAPID_BLINK)
            != (Modifier::SLOW_BLINK | Modifier::RAPID_BLINK)
}

#[test]
fn a_difference_leads_from_one_state_to_the_other() {
    for from in 0..=Modifier::ALL {
        for to in 0..=Modifier::ALL {
            if exclusive(from) && exclusive(to) {
                assert_eq!(apply(from, codes(from, to)), to);
            }
        }
    }
}

#[test]
fn something_is_sent_wherever_an_attribute_changes() {
    for from in 0..=Modifier::ALL {
        for to in 0..=Modifier::ALL {
            assert_eq!(codes(from, to) == 0, from == to);
        }
    }
}

#[test]
fn bits_that_stand_for_nothing_are_dropped_or_refused() {
    assert_eq!(Modifier::from_bits_truncate(0xffff).bits(), Modifier::ALL);
    assert_eq!(Modifier::from_bits(0x0200), None);
    assert_eq!(Modifier::from_bits(0x0101).map(|m| m.bits()), Some(0x0101));
    assert!(Modifier::empty().is_empty());
}

#[test]
fn set_operations() {
    let a = m(Modifier::BOLD | Modifier::ITALIC);
    let b = m(Modifier::ITALIC | Modifier::HIDDEN);
    assert_eq!(a.difference(b), m(Modifier::BOLD));
    assert_eq!(a.union(b), m(Modifier::BOLD | Modifier::ITALIC | Modifier::HIDDEN));
    assert!(a.contains(Modifier::BOLD));
    assert!(a.contains(Modifier::BOLD | Modifier::ITALIC));
    assert!(!a.contains(Modifier::BOLD | Modifier::HIDDEN));
    let mut codes = SgrModifiers::empty();
    codes.insert(SgrModifiers::ITALIC);
    codes.insert_if(false, SgrModifiers::REVERSE);
    codes.insert_if(true, SgrModifiers::INVISIBLE);
    assert_eq!(codes.bits(), SgrModifiers::ITALIC | SgrModifiers::INVISIBLE);
}
