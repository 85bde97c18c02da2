use monitor_controller::osc::{osc_arg_bits, OscArg};
use monitor_controller::osc_input::{incoming_messages, messages_of, OscArgIn, OscItemIn, OscMessageIn, OscNumber,
    OscPacketIn};
use rosc::{encoder, OscBundle, OscMessage, OscPacket, OscTime, OscType};

fn message(addr: &str, args: Vec<OscType>) -> OscPacket {
    OscPacket::Message(OscMessage { addr: addr.to_string(), args })
}

fn bundle(content: Vec<OscPacket>) -> OscPacket {
    OscPacket::Bundle(OscBundle { timetag: OscTime { seconds: 0, fractional: 1 }, content })
}

fn bytes(p: &OscPacket) -> Vec<u8> {
    encoder::encode(p).expect("encoding into a Vec succeeds")
}

#[test]
fn a_float_message_gives_its_address_and_bits() {
    let data = bytes(&message("/Monitor/Mode/Solo", vec![OscType::Float(1.0)]));
    let got = incoming_messages(&data).expect("the datagram decodes");
    assert_eq!(got, vec![("/Monitor/Mode/Solo".to_string(), OscNumber::FloatBits(1.0f32.to_bits()))]);
}

#[test]
fn an_int_message_gives_its_integer() {
    let data = bytes(&message("/Monitor/Master/Dim", vec![OscType::Int(1), OscType::Float(0.0)]));
    assert_eq!(incoming_messages(&data), Some(vec![("/Monitor/Master/Dim".to_string(), OscNumber::Int(1))]));
}

#[test]
fn messages_without_a_numeric_first_argument_are_skipped() {
    let none = bytes(&message("/Monitor/Master/Cut", vec![]));
    assert_eq!(incoming_messages(&none), Some(vec![]));
    let text = bytes(&message("/Monitor/Master/Cut", vec![OscType::String("on".to_string()), OscType::Int(1)]));
    assert_eq!(incoming_messages(&text), Some(vec![]));
}

#[test]
fn a_bundle_gives_its_direct_messages_in_order() {
    let data = bytes(&bundle(vec![
        message("/Monitor/Channel/L", vec![OscType::Float(1.0)]),
        bundle(vec![message("/Monitor/Channel/R", vec![OscType::Float(1.0)])]),
        message("/Monitor/Master/Cut", vec![OscType::Int(0)]),
    ]));
    assert_eq!(
        incoming_messages(&data),
        Some(vec![
            ("/Monitor/Channel/L".to_string(), OscNumber::FloatBits(1.0f32.to_bits())),
            ("/Monitor/Master/Cut".to_string(), OscNumber::Int(0)),
        ])
    );
}

#[test]
fn undecodable_bytes_give_none() {
    assert_eq!(incoming_messages(&[1, 2, 3]), None);
    assert_eq!(incoming_messages(&[]), None);
}

#[test]
fn decoding_keeps_argument_values() {
    let data = bytes(&bundle(vec![
        message("/a", vec![OscType::Float(0.25), OscType::Nil]),
        message("/b", vec![OscType::Int(-3)]),
        message("/c", vec![OscType::Nil, OscType::Int(1)]),
        bundle(vec![]),
    ]));
    assert_eq!(
        incoming_messages(&data),
        Some(vec![("/a".to_string(), OscNumber::FloatBits(0.25f32.to_bits())), ("/b".to_string(), OscNumber::Int(-3))])
    );
}

#[test]
fn messages_of_a_single_message_and_a_bundle() {
    let p = OscPacketIn::Message(OscMessageIn { addr: "/x".to_string(), args: vec![OscArgIn::Int(7)] });
    assert_eq!(messages_of(&p), vec![("/x".to_string(), OscNumber::Int(7))]);
    let b = OscPacketIn::Bundle(vec![
        OscItemIn::Bundle,
        OscItemIn::Message(OscMessageIn { addr: "/y".to_string(), args: vec![OscArgIn::Other] }),
        OscItemIn::Message(OscMessageIn { addr: "/z".to_string(), args: vec![OscArgIn::FloatBits(9)] }),
    ]);
    assert_eq!(messages_of(&b), vec![("/z".to_string(), OscNumber::FloatBits(9))]);
}

#[test]
fn outgoing_arguments_are_sent_as_their_float_bits() {
    assert_eq!(osc_arg_bits(OscArg::Flag(true)), 1.0f32.to_bits());
    assert_eq!(osc_arg_bits(OscArg::Flag(false)), 0.0f32.to_bits());
    assert_eq!(osc_arg_bits(OscArg::VolumeBits(0.5f32.to_bits())), 0.5f32.to_bits());
    for code in 0..=255u8 {
        assert_eq!(osc_arg_bits(OscArg::Led(code)), (code as f32).to_bits());
    }
}
