use vstd::prelude::*;

verus! {

/// The fourteen kinds of control packet.
#[derive(Copy, Clone, PartialEq, Eq, Structural, Debug)]
pub enum PacketType {
    Connect,
    Connack,
    Publish,
    Puback,
    Pubrec,
    Pubrel,
    Pubcomp,
    Subscribe,
    Suback,
    Unsubscribe,
    Unsuback,
    Pingreq,
    Pingresp,
    Disconnect,
}

} // verus!
