//! What each request of the command line does to a power supply.
use vstd::prelude::*;

verus! {

/// A request from the command line. Limits are in millivolts and milliamps.
#[derive(Clone, Copy, Debug, PartialEq, Eq, Structural)]
pub enum Request {
    /// Power the output on, after setting whichever limits are given.
    PowerOn { voltage_limit: Option<u32>, current_limit: Option<u32> },
    /// Power the output off.
    PowerOff,
    /// Set whichever limits are given, leaving the output as it is.
    SetLimits { voltage_limit: Option<u32>, current_limit: Option<u32> },
}

/// One capability call on a power supply.
#[derive(Clone, Copy, Debug, PartialEq, Eq, Structural)]
pub enum Operation {
    SetVoltageLimit { millivolts: u32 },
    SetCurrentLimit { milliamps: u32 },
    EnableOutput { enabled: bool },
}

/// The calls that set the given limits: voltage first, then current.
pub open spec fn limit_operations(voltage_limit: Option<u32>, current_limit: Option<u32>) -> Seq<Operation> {
    let voltage = match voltage_limit {
        Some(millivolts) => seq![Operation::SetVoltageLimit { millivolts }],
        None => Seq::empty(),
    };
    let current = match current_limit {
        Some(milliamps) => seq![Operation::SetCurrentLimit { milliamps }],
        None => Seq::empty(),
    };
    voltage + current
}

/// The calls that carry out `request`, in order, between opening and closing the session.
pub open spec fn request_operations(request: Request) -> Seq<Operation> {
    match request {
        Request::PowerOn { voltage_limit, current_limit } => limit_operations(
            voltage_limit,
            current_limit,
        ).push(Operation::EnableOutput { enabled: true }),
        Request::PowerOff => seq![Operation::EnableOutput { enabled: false }],
        Request::SetLimits { voltage_limit, current_limit } => limit_operations(
            voltage_limit,
            current_limit,
        ),
    }
}

fn push_limits(ops: &mut Vec<Operation>, voltage_limit: Option<u32>, current_limit: Option<u32>)
    ensures
        final(ops)@ == old(ops)@ + limit_operations(voltage_limit, current_limit),
{
    if let Some(millivolts) = voltage_limit {
        ops.push(Operation::SetVoltageLimit { millivolts });
    }
    if let Some(milliamps) = current_limit {
        ops.push(Operation::SetCurrentLimit { milliamps });
    }
    assert(ops@ =~= old(ops)@ + limit_operations(voltage_limit, current_limit));
}

impl Request {
    /// The capability calls that carry out the request, in order. The session is
    /// opened before them and closed after them.
    pub fn operations(&self) -> (r: Vec<Operation>)
        ensures
            r@ == request_operations(*self),
    {
        let mut ops: Vec<Operation> = Vec::new();
        match *self {
            Request::PowerOn { voltage_limit, current_limit } => {
                push_limits(&mut ops, voltage_limit, current_limit);
                ops.push(Operation::EnableOutput { enabled: true });
            },
            Request::PowerOff => {
                ops.push(Operation::EnableOutput { enabled: false });
            },
            Request::SetLimits { voltage_limit, current_limit } => {
                push_limits(&mut ops, voltage_limit, current_limit);
            },
        }
        assert(ops@ =~= request_operations(*self));
        ops
    }
}

} // verus!
