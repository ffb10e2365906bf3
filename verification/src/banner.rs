//! The start-up banner: a block of text sent as one message before the
//! first log line.

use vstd::prelude::*;
use vstd::string::StringSliceAdditionalSpecFns;
use crate::buffer::put;
use crate::config::BAUD_RATE;
use crate::decimal::decimal_digits;
use crate::message::Message;
use crate::queue::{admits, Enqueued, LogQueue};

verus! {

/// What a message holds after attempts to append each of `pieces` in order,
/// each whole or not at all.
pub open spec fn put_all(held: Seq<u8>, pieces: Seq<Seq<u8>>) -> Seq<u8>
    decreases pieces.len(),
{
    if pieces.len() == 0 {
        held
    } else {
        put_all(put(held, pieces[0]), pieces.skip(1))
    }
}

/// The pieces of the banner in the order in which they are written.
pub open spec fn banner_pieces() -> Seq<Seq<u8>> {
    seq![
        "\r\n".spec_bytes(),
        "=====================================\r\n".spec_bytes(),
        "  RP2040 Dual Core UART Demo\r\n".spec_bytes(),
        "  Embassy Async Framework\r\n".spec_bytes(),
        "=====================================\r\n".spec_bytes(),
        "UART0 Config:\r\n".spec_bytes(),
        "  - Baud Rate: ".spec_bytes(),
        decimal_digits(BAUD_RATE as nat),
        "\r\n".spec_bytes(),
        "  - TX: GPIO0, RX: GPIO1\r\n".spec_bytes(),
        "  - Data: 8N1\r\n".spec_bytes(),
        "=====================================\r\n".spec_bytes(),
        "Log Format:\r\n".spec_bytes(),
        "  [uptime_ms] [Core] [LEVEL] message\r\n".spec_bytes(),
        "=====================================\r\n\r\n".spec_bytes(),
    ]
}

/// The text of the banner message: as many of the pieces as fit.
pub open spec fn banner_text() -> Seq<u8> {
    put_all(Seq::empty(), banner_pieces())
}

/// The banner message.
pub fn banner() -> (m: Message)
    ensures
        m@ == banner_text(),
{
    let m = Message::new();
    let m = m.with_text("\r\n");
    let m = m.with_text("=====================================\r\n");
    let m = m.with_text("  RP2040 Dual Core UART Demo\r\n");
    let m = m.with_text("  Embassy Async Framework\r\n");
    let m = m.with_text("=====================================\r\n");
    let m = m.with_text("UART0 Config:\r\n");
    let m = m.with_text("  - Baud Rate: ");
    let m = m.with_decimal(BAUD_RATE as u64);
    let m = m.with_text("\r\n");
    let m = m.with_text("  - TX: GPIO0, RX: GPIO1\r\n");
    let m = m.with_text("  - Data: 8N1\r\n");
    let m = m.with_text("=====================================\r\n");
    let m = m.with_text("Log Format:\r\n");
    let m = m.with_text("  [uptime_ms] [Core] [LEVEL] message\r\n");
    let m = m.with_text("=====================================\r\n\r\n");
    proof {
        reveal_with_fuel(put_all, 16);
    }
    m
}

/// Offers the banner to the queue once, as the suspending producer does:
/// `Blocked` hands the banner back with a ticket, to be offered again.
pub fn send_banner(queue: &mut LogQueue) -> (r: Enqueued)
    requires
        old(queue).line().issued < u64::MAX,
    ensures
        r is Stored == admits(old(queue)@, old(queue).capacity_spec(), old(queue).line()),
        r is Stored ==> ({
            &&& final(queue)@ == old(queue)@.push(banner_text())
            &&& final(queue).line() == old(queue).line()
        }),
        r matches Enqueued::Blocked(back, ticket) ==> ({
            &&& back@ == banner_text()
            &&& ticket.number_spec() == old(queue).line().issued
            &&& final(queue)@ == old(queue)@
            &&& final(queue).line().served == old(queue).line().served
            &&& final(queue).line().issued == old(queue).line().issued + 1
        }),
        final(queue).capacity_spec() == old(queue).capacity_spec(),
{
    queue.enqueue_blocking(banner())
}

} // verus!
