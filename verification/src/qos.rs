use vstd::prelude::*;

use crate::error::Error;

verus! {

/// Delivery guarantee of a message: one of the three levels 0, 1 and 2.
#[derive(Copy, Clone, PartialEq, Eq, Structural, Debug)]
pub enum QoS {
    AtMostOnce,
    AtLeastOnce,
    ExactlyOnce,
}

impl QoS {
    /// Reads a level from its number: 0, 1 and 2 give the three levels, every
    /// other number is refused with [`Error::InvalidQoS`].
    pub fn from_u8(qos: u8) -> (res: Result<QoS, Error>)
        ensures
            qos == 0 ==> res == Ok::<QoS, Error>(QoS::AtMostOnce),
            qos == 1 ==> res == Ok::<QoS, Error>(QoS::AtLeastOnce),
            qos == 2 ==> res == Ok::<QoS, Error>(QoS::ExactlyOnce),
            qos > 2 ==> res == Err::<QoS, Error>(Error::InvalidQoS),
    {
        match qos {
            0 => Ok(QoS::AtMostOnce),
            1 => Ok(QoS::AtLeastOnce),
            2 => Ok(QoS::ExactlyOnce),
            _ => Err(Error::InvalidQoS),
        }
    }
}

} // verus!
