use vstd::prelude::*;

verus! {

/// The three general-purpose I/O ports of the ATmega328P.
#[derive(Clone, Copy, PartialEq, Eq, Structural, Debug)]
pub enum Port {
    B,
    C,
    D,
}

/// A read-modify-write of an output port: the bits of `clear` are cleared,
/// then the bits of `set` are set.
#[derive(Clone, Copy, PartialEq, Eq, Structural, Debug)]
pub struct PortUpdate {
    pub port: Port,
    pub clear: u8,
    pub set: u8,
}

/// The value a port holds after `update` is applied to `old`.
pub open spec fn applied(old: u8, clear: u8, set: u8) -> u8 {
    (old & !clear) | set
}

/// Applies a port update to a register value.
pub fn apply_update(old: u8, update: PortUpdate) -> (r: u8)
    ensures
        r == applied(old, update.clear, update.set),
{
    (old & !update.clear) | update.set
}

/// One effect on the hardware, for the caller to carry out in order.
#[derive(Clone, Copy, PartialEq, Eq, Structural, Debug)]
pub enum Action {
    /// A read-modify-write of an output port.
    Port(PortUpdate),
    /// Write OCR1A: the servo pulse width, in Timer1 counts.
    Servo(u16),
    /// Write TCCR0B: the buzzer's clock select (0 stops Timer0).
    Timer0Clock(u8),
    /// Send one byte on the UART.
    Uart(u8),
}

/// The UART actions that send `bytes`, in order.
pub open spec fn uart_actions(bytes: Seq<u8>) -> Seq<Action> {
    bytes.map_values(|b: u8| Action::Uart(b))
}

/// Appends the UART actions that send `bytes`.
pub fn push_uart(out: &mut Vec<Action>, bytes: &Vec<u8>)
    ensures
        final(out)@ == old(out)@ + uart_actions(bytes@),
{
    let ghost start = out@;
    let mut i: usize = 0;
    while i < bytes.len()
        invariant
            i <= bytes@.len(),
            out@ =~= start + uart_actions(bytes@.subrange(0, i as int)),
        decreases bytes@.len() - i,
    {
        out.push(Action::Uart(bytes[i]));
        i = i + 1;
        assert(uart_actions(bytes@.subrange(0, i as int)) =~= uart_actions(
            bytes@.subrange(0, i - 1),
        ).push(Action::Uart(bytes@[i - 1])));
    }
    assert(bytes@.subrange(0, bytes@.len() as int) =~= bytes@);
}

} // verus!
