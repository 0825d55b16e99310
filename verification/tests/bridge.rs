use lau_protocol::{F64Bits, LauBridge, LauMessage};

fn speak(text: &str) -> LauMessage {
    LauMessage::Speak {
        agent_id: "x".into(),
        text: text.into(),
        emotion: F64Bits(0.5f64.to_bits()),
    }
}

#[test]
fn bridge_port_in_and_flush() {
    let mut bridge = LauBridge::new();
    let msg = LauMessage::Speak {
        agent_id: "x".into(),
        text: "hi".into(),
        emotion: F64Bits(0.5f64.to_bits()),
    };
    bridge.port_in(msg.clone());
    assert_eq!(bridge.incoming_len(), 1);
    let msgs = bridge.flush_incoming();
    assert_eq!(msgs.len(), 1);
    assert_eq!(msgs[0], msg);
    assert_eq!(bridge.incoming_len(), 0);
}

#[test]
fn bridge_port_out_and_flush() {
    let mut bridge = LauBridge::new();
    bridge.port_out(LauMessage::StateUpdate {
        room_id: "r".into(),
        vibe: F64Bits(0.5f64.to_bits()),
        population: 1,
        events: vec![],
    });
    assert_eq!(bridge.outgoing_len(), 1);
    let msgs = bridge.flush_outgoing();
    assert_eq!(msgs.len(), 1);
    assert!(bridge.flush_outgoing().is_empty());
}

#[test]
fn bridge_capacity_limit() {
    let mut bridge = LauBridge::with_capacity(2);
    for _ in 0..5 {
        bridge.port_in(LauMessage::Speak {
            agent_id: "x".into(),
            text: "hi".into(),
            emotion: F64Bits(0.5f64.to_bits()),
        });
    }
    assert_eq!(bridge.incoming_len(), 2);
}

#[test]
fn bridge_default_impl() {
    let bridge = LauBridge::default();
    assert_eq!(bridge.incoming_len(), 0);
    assert_eq!(bridge.outgoing_len(), 0);
}

#[test]
fn bridge_keeps_first_messages_in_order() {
    let mut bridge = LauBridge::with_capacity(3);
    for text in ["a", "b", "c", "d", "e"] {
        bridge.port_in(speak(text));
    }
    let msgs = bridge.flush_incoming();
    assert_eq!(msgs, vec![speak("a"), speak("b"), speak("c")]);
    // Once flushed, there is room again.
    bridge.port_in(speak("f"));
    assert_eq!(bridge.flush_incoming(), vec![speak("f")]);
}

#[test]
fn bridge_directions_are_independent() {
    let mut bridge = LauBridge::with_capacity(1);
    bridge.port_in(speak("in"));
    bridge.port_out(speak("out"));
    bridge.port_out(speak("dropped"));
    assert_eq!(bridge.incoming_len(), 1);
    assert_eq!(bridge.outgoing_len(), 1);
    assert_eq!(bridge.flush_outgoing(), vec![speak("out")]);
    assert_eq!(bridge.incoming_len(), 1);
    assert_eq!(bridge.flush_incoming(), vec![speak("in")]);
}

#[test]
fn bridge_with_zero_capacity_drops_everything() {
    let mut bridge = LauBridge::with_capacity(0);
    bridge.port_in(speak("a"));
    bridge.port_out(speak("b"));
    assert_eq!(bridge.incoming_len(), 0);
    assert_eq!(bridge.outgoing_len(), 0);
}

#[test]
fn bridge_default_capacity_is_1024() {
    let mut bridge = LauBridge::new();
    for i in 0..1100 {
        bridge.port_out(speak(&i.to_string()));
    }
    assert_eq!(bridge.outgoing_len(), 1024);
    let msgs = bridge.flush_outgoing();
    assert_eq!(msgs[1023], speak("1023"));
}

#[test]
fn messages_compare_reals_as_f64() {
    let zero = LauMessage::Speak { agent_id: "x".into(), text: "t".into(), emotion: F64Bits(0.0f64.to_bits()) };
    let minus_zero = LauMessage::Speak { agent_id: "x".into(), text: "t".into(), emotion: F64Bits((-0.0f64).to_bits()) };
    assert_eq!(zero, minus_zero);
    let nan = LauMessage::Speak { agent_id: "x".into(), text: "t".into(), emotion: F64Bits(f64::NAN.to_bits()) };
    assert_ne!(nan, nan.clone());
}
