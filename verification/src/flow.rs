//! Whole runs of the relays: what a connection and the two pumps pass on
//! over any sequence of signals, and what follows for many clients on one
//! terminal.

use vstd::prelude::*;
use crate::relay::{
    client_step, concat, ends_connection, input_pump_step, output_pump_step, ClientOrder,
    ClientSignal, InputPumpOrder, InputPumpSignal, OutputPumpOrder, OutputPumpSignal, CHUNK_SIZE,
};

verus! {

// ---------------------------------------------------------------------------
// One connection

/// Whether a fresh connection is open after `signals`.
pub open spec fn client_open_after(signals: Seq<ClientSignal>) -> bool
    decreases signals.len(),
{
    if signals.len() == 0 {
        true
    } else {
        client_step(client_open_after(signals.drop_last()), signals.last()).0
    }
}

/// What is done on a fresh connection for `signals`, one order for each.
pub open spec fn client_orders(signals: Seq<ClientSignal>) -> Seq<ClientOrder>
    decreases signals.len(),
{
    if signals.len() == 0 {
        Seq::empty()
    } else {
        client_orders(signals.drop_last()).push(
            client_step(client_open_after(signals.drop_last()), signals.last()).1,
        )
    }
}

/// The units that `orders` put in the queue towards the terminal.
pub open spec fn units_enqueued(orders: Seq<ClientOrder>) -> Seq<Seq<u8>>
    decreases orders.len(),
{
    if orders.len() == 0 {
        Seq::empty()
    } else {
        match orders.last() {
            ClientOrder::Enqueue(bytes) => units_enqueued(orders.drop_last()).push(bytes),
            _ => units_enqueued(orders.drop_last()),
        }
    }
}

/// The units that `orders` write to the client.
pub open spec fn units_written(orders: Seq<ClientOrder>) -> Seq<Seq<u8>>
    decreases orders.len(),
{
    if orders.len() == 0 {
        Seq::empty()
    } else {
        match orders.last() {
            ClientOrder::Write(bytes) => units_written(orders.drop_last()).push(bytes),
            _ => units_written(orders.drop_last()),
        }
    }
}

/// The bytes that the client sent, in `signals`.
pub open spec fn bytes_sent(signals: Seq<ClientSignal>) -> Seq<u8>
    decreases signals.len(),
{
    if signals.len() == 0 {
        Seq::empty()
    } else {
        match signals.last() {
            ClientSignal::Read(bytes) => bytes_sent(signals.drop_last()) + bytes,
            _ => bytes_sent(signals.drop_last()),
        }
    }
}

/// The units that the subscription gave, in `signals`.
pub open spec fn units_received(signals: Seq<ClientSignal>) -> Seq<Seq<u8>>
    decreases signals.len(),
{
    if signals.len() == 0 {
        Seq::empty()
    } else {
        match signals.last() {
            ClientSignal::Received(bytes) => units_received(signals.drop_last()).push(bytes),
            _ => units_received(signals.drop_last()),
        }
    }
}

/// How many of `signals` come before the first that ends the connection.
pub open spec fn client_life(signals: Seq<ClientSignal>) -> int
    decreases signals.len(),
{
    if signals.len() == 0 {
        0
    } else {
        let before = client_life(signals.drop_last());
        if before < signals.len() - 1 || ends_connection(signals.last()) {
            before
        } else {
            before + 1
        }
    }
}

/// Whatever happens on a connection, it passes on exactly what came before
/// the first signal that ended it, in order and unchanged, and nothing of
/// what came after: the units it puts in the queue are, joined, the bytes
/// the client sent until then, and the units it writes to the client are
/// the units its subscription gave until then. It is open for as long as
/// nothing has ended it.
pub proof fn lemma_connection_relays_until_closed(signals: Seq<ClientSignal>)
    ensures
        0 <= client_life(signals) <= signals.len(),
        client_open_after(signals) <==> client_life(signals) == signals.len(),
        concat(units_enqueued(client_orders(signals))) == bytes_sent(
            signals.take(client_life(signals)),
        ),
        units_written(client_orders(signals)) == units_received(
            signals.take(client_life(signals)),
        ),
    decreases signals.len(),
{
    if signals.len() == 0 {
        assert(signals.take(0) =~= signals);
    } else {
        let before = signals.drop_last();
        let life = client_life(before);
        lemma_connection_relays_until_closed(before);
        let orders = client_orders(signals);
        assert(orders.drop_last() =~= client_orders(before));
        if life < before.len() {
            assert(signals.take(life) =~= before.take(life));
        } else {
            assert(before.take(life) =~= before);
            if ends_connection(signals.last()) {
                assert(signals.take(life) =~= before);
            } else {
                assert(signals.take(life + 1) =~= signals);
                match signals.last() {
                    ClientSignal::Read(bytes) => {
                        if bytes.len() > 0 {
                            let units = units_enqueued(orders);
                            assert(units.drop_last() =~= units_enqueued(client_orders(before)));
                        } else {
                            assert(bytes_sent(before) + bytes =~= bytes_sent(before));
                        }
                    },
                    _ => {},
                }
            }
        }
    }
}

/// Whether every read from the client in `signals` handed over at most
/// `CHUNK_SIZE` bytes, as every read into a `read_buffer` does.
pub open spec fn client_reads_fit(signals: Seq<ClientSignal>) -> bool {
    forall|i: int|
        0 <= i < signals.len() ==> (#[trigger] signals[i] matches ClientSignal::Read(bytes)
            ==> bytes.len() <= CHUNK_SIZE)
}

/// Where no read hands over more than `CHUNK_SIZE` bytes, every unit that a
/// connection puts in the queue holds at least one byte and at most
/// `CHUNK_SIZE`, whatever else happens on the connection.
pub proof fn lemma_enqueued_units_fit(signals: Seq<ClientSignal>)
    requires
        client_reads_fit(signals),
    ensures
        forall|k: int|
            0 <= k < units_enqueued(client_orders(signals)).len() ==> 1 <= (
            #[trigger] units_enqueued(client_orders(signals))[k]).len() <= CHUNK_SIZE,
    decreases signals.len(),
{
    if signals.len() > 0 {
        let before = signals.drop_last();
        assert(client_reads_fit(before)) by {
            assert forall|i: int| 0 <= i < before.len() implies (
            #[trigger] before[i] matches ClientSignal::Read(bytes) ==> bytes.len()
                <= CHUNK_SIZE) by {
                assert(before[i] == signals[i]);
            }
        }
        lemma_enqueued_units_fit(before);
        let orders = client_orders(signals);
        assert(orders.drop_last() =~= client_orders(before));
        assert(signals[signals.len() - 1] == signals.last());
        match orders.last() {
            ClientOrder::Enqueue(bytes) => {
                let units = units_enqueued(orders);
                assert(units.drop_last() =~= units_enqueued(client_orders(before)));
                assert(units.last() == bytes);
            },
            _ => {},
        }
    }
}

/// Whether nothing in `signals` ends the connection.
pub open spec fn client_alive(signals: Seq<ClientSignal>) -> bool {
    forall|i: int| 0 <= i < signals.len() ==> !ends_connection(#[trigger] signals[i])
}

/// As long as nothing fails, a connection passes on everything, in order and
/// unchanged: the units it puts in the queue are, joined, the bytes the
/// client sent, none of them empty; and the units it writes to the client
/// are the units its subscription gave.
pub proof fn lemma_connection_relays_all(signals: Seq<ClientSignal>)
    requires
        client_alive(signals),
    ensures
        client_open_after(signals),
        concat(units_enqueued(client_orders(signals))) == bytes_sent(signals),
        units_written(client_orders(signals)) == units_received(signals),
        forall|k: int|
            0 <= k < units_enqueued(client_orders(signals)).len() ==> (
            #[trigger] units_enqueued(client_orders(signals))[k]).len() > 0,
    decreases signals.len(),
{
    if signals.len() > 0 {
        let before = signals.drop_last();
        assert(client_alive(before)) by {
            assert forall|i: int| 0 <= i < before.len() implies !ends_connection(
                #[trigger] before[i],
            ) by {
                assert(before[i] == signals[i]);
            }
        }
        lemma_connection_relays_all(before);
        assert(!ends_connection(signals[signals.len() - 1]));
        let orders = client_orders(signals);
        assert(orders.drop_last() =~= client_orders(before));
        match signals.last() {
            ClientSignal::Read(bytes) => {
                if bytes.len() > 0 {
                    let units = units_enqueued(orders);
                    assert(units.drop_last() =~= units_enqueued(client_orders(before)));
                } else {
                    assert(bytes_sent(before) + bytes =~= bytes_sent(before));
                }
            },
            _ => {},
        }
    }
}

/// Once something has ended a connection, it is closed for good: from that
/// signal on every order is `Close`, whatever comes.
pub proof fn lemma_connection_closes_for_good(signals: Seq<ClientSignal>, i: int)
    requires
        0 <= i < signals.len(),
        ends_connection(signals[i]),
    ensures
        !client_open_after(signals),
        forall|j: int| i <= j < signals.len() ==> client_orders(signals)[j] == ClientOrder::Close,
        client_orders(signals).len() == signals.len(),
    decreases signals.len(),
{
    let before = signals.drop_last();
    let orders = client_orders(signals);
    lemma_client_orders_len(signals);
    if i < signals.len() - 1 {
        assert(before[i] == signals[i]);
        lemma_connection_closes_for_good(before, i);
        assert forall|j: int| i <= j < signals.len() implies orders[j] == ClientOrder::Close by {
            if j < signals.len() - 1 {
                assert(orders[j] == client_orders(before)[j]);
            }
        }
    }
}

/// One order is given for each signal.
pub proof fn lemma_client_orders_len(signals: Seq<ClientSignal>)
    ensures
        client_orders(signals).len() == signals.len(),
    decreases signals.len(),
{
    if signals.len() > 0 {
        lemma_client_orders_len(signals.drop_last());
    }
}

// ---------------------------------------------------------------------------
// The pump of the terminal's input

/// Whether a fresh input pump runs after `signals`.
pub open spec fn input_pump_running_after(signals: Seq<InputPumpSignal>) -> bool
    decreases signals.len(),
{
    if signals.len() == 0 {
        true
    } else {
        input_pump_step(input_pump_running_after(signals.drop_last()), signals.last()).0
    }
}

/// What a fresh input pump does for `signals`, one order for each.
pub open spec fn input_pump_orders(signals: Seq<InputPumpSignal>) -> Seq<InputPumpOrder>
    decreases signals.len(),
{
    if signals.len() == 0 {
        Seq::empty()
    } else {
        input_pump_orders(signals.drop_last()).push(
            input_pump_step(input_pump_running_after(signals.drop_last()), signals.last()).1,
        )
    }
}

/// The units that `orders` write to the terminal's input.
pub open spec fn units_typed(orders: Seq<InputPumpOrder>) -> Seq<Seq<u8>>
    decreases orders.len(),
{
    if orders.len() == 0 {
        Seq::empty()
    } else {
        match orders.last() {
            InputPumpOrder::Write(bytes) => units_typed(orders.drop_last()).push(bytes),
            InputPumpOrder::Stop => units_typed(orders.drop_last()),
        }
    }
}

/// The units that the queue gave, in `signals`.
pub open spec fn units_dequeued(signals: Seq<InputPumpSignal>) -> Seq<Seq<u8>>
    decreases signals.len(),
{
    if signals.len() == 0 {
        Seq::empty()
    } else {
        match signals.last() {
            InputPumpSignal::Received(bytes) => units_dequeued(signals.drop_last()).push(bytes),
            _ => units_dequeued(signals.drop_last()),
        }
    }
}

/// How many of `signals` come before the first that stops the input pump.
pub open spec fn input_pump_life(signals: Seq<InputPumpSignal>) -> int
    decreases signals.len(),
{
    if signals.len() == 0 {
        0
    } else {
        let before = input_pump_life(signals.drop_last());
        if before < signals.len() - 1 || !(signals.last() is Received) {
            before
        } else {
            before + 1
        }
    }
}

/// Whatever happens at the input pump, it writes to the terminal exactly the
/// units that the queue gave before the first signal that stopped it, each
/// whole and in the order of the queue, and nothing after. It runs for as
/// long as nothing has stopped it.
pub proof fn lemma_input_pump_writes_until_stopped(signals: Seq<InputPumpSignal>)
    ensures
        0 <= input_pump_life(signals) <= signals.len(),
        input_pump_running_after(signals) <==> input_pump_life(signals) == signals.len(),
        units_typed(input_pump_orders(signals)) == units_dequeued(
            signals.take(input_pump_life(signals)),
        ),
    decreases signals.len(),
{
    if signals.len() == 0 {
        assert(signals.take(0) =~= signals);
    } else {
        let before = signals.drop_last();
        let life = input_pump_life(before);
        lemma_input_pump_writes_until_stopped(before);
        let orders = input_pump_orders(signals);
        assert(orders.drop_last() =~= input_pump_orders(before));
        if life < before.len() {
            assert(signals.take(life) =~= before.take(life));
        } else {
            assert(before.take(life) =~= before);
            if signals.last() is Received {
                assert(signals.take(life + 1) =~= signals);
            } else {
                assert(signals.take(life) =~= before);
            }
        }
    }
}

/// Once a closed queue or a failed write has stopped the input pump, it is
/// stopped for good: from that signal on every order is `Stop`.
pub proof fn lemma_input_pump_stops_for_good(signals: Seq<InputPumpSignal>, i: int)
    requires
        0 <= i < signals.len(),
        !(signals[i] is Received),
    ensures
        !input_pump_running_after(signals),
        input_pump_orders(signals).len() == signals.len(),
        forall|j: int|
            i <= j < signals.len() ==> input_pump_orders(signals)[j] == InputPumpOrder::Stop,
    decreases signals.len(),
{
    let before = signals.drop_last();
    let orders = input_pump_orders(signals);
    lemma_input_pump_orders_len(signals);
    if i < signals.len() - 1 {
        assert(before[i] == signals[i]);
        lemma_input_pump_stops_for_good(before, i);
        assert forall|j: int| i <= j < signals.len() implies orders[j]
            == InputPumpOrder::Stop by {
            if j < signals.len() - 1 {
                assert(orders[j] == input_pump_orders(before)[j]);
            }
        }
    }
}

/// One order is given for each signal.
pub proof fn lemma_input_pump_orders_len(signals: Seq<InputPumpSignal>)
    ensures
        input_pump_orders(signals).len() == signals.len(),
    decreases signals.len(),
{
    if signals.len() > 0 {
        lemma_input_pump_orders_len(signals.drop_last());
    }
}

/// The input pump, handed the units of a queue one after the other, writes
/// each of them to the terminal, in the order of the queue.
pub proof fn lemma_input_pump_writes_in_order(units: Seq<Seq<u8>>)
    ensures
        input_pump_running_after(Seq::new(units.len(), |k: int| InputPumpSignal::Received(units[k]))),
        input_pump_orders(Seq::new(units.len(), |k: int| InputPumpSignal::Received(units[k])))
            == Seq::new(units.len(), |k: int| InputPumpOrder::Write(units[k])),
    decreases units.len(),
{
    let signals = Seq::new(units.len(), |k: int| InputPumpSignal::Received(units[k]));
    let orders = Seq::new(units.len(), |k: int| InputPumpOrder::Write(units[k]));
    if units.len() > 0 {
        let fewer = units.drop_last();
        lemma_input_pump_writes_in_order(fewer);
        assert(signals.drop_last() =~= Seq::new(
            fewer.len(),
            |k: int| InputPumpSignal::Received(fewer[k]),
        ));
        assert(input_pump_orders(signals) =~= orders);
    } else {
        assert(input_pump_orders(signals) =~= orders);
    }
}

// ---------------------------------------------------------------------------
// The pump of the terminal's output

/// Whether a fresh output pump runs after `signals`.
pub open spec fn output_pump_running_after(signals: Seq<OutputPumpSignal>) -> bool
    decreases signals.len(),
{
    if signals.len() == 0 {
        true
    } else {
        output_pump_step(output_pump_running_after(signals.drop_last()), signals.last()).0
    }
}

/// What a fresh output pump does for `signals`, one order for each.
pub open spec fn output_pump_orders(signals: Seq<OutputPumpSignal>) -> Seq<OutputPumpOrder>
    decreases signals.len(),
{
    if signals.len() == 0 {
        Seq::empty()
    } else {
        output_pump_orders(signals.drop_last()).push(
            output_pump_step(output_pump_running_after(signals.drop_last()), signals.last()).1,
        )
    }
}

/// The units that `orders` publish.
pub open spec fn units_published(orders: Seq<OutputPumpOrder>) -> Seq<Seq<u8>>
    decreases orders.len(),
{
    if orders.len() == 0 {
        Seq::empty()
    } else {
        match orders.last() {
            OutputPumpOrder::Publish(bytes) => units_published(orders.drop_last()).push(bytes),
            _ => units_published(orders.drop_last()),
        }
    }
}

/// The bytes that the terminal put out, in `signals`.
pub open spec fn bytes_put_out(signals: Seq<OutputPumpSignal>) -> Seq<u8>
    decreases signals.len(),
{
    if signals.len() == 0 {
        Seq::empty()
    } else {
        match signals.last() {
            OutputPumpSignal::Read(bytes) => bytes_put_out(signals.drop_last()) + bytes,
            OutputPumpSignal::ReadFailed => bytes_put_out(signals.drop_last()),
        }
    }
}

/// How many of `signals` come before the first failed read.
pub open spec fn output_pump_life(signals: Seq<OutputPumpSignal>) -> int
    decreases signals.len(),
{
    if signals.len() == 0 {
        0
    } else {
        let before = output_pump_life(signals.drop_last());
        if before < signals.len() - 1 || signals.last() is ReadFailed {
            before
        } else {
            before + 1
        }
    }
}

/// Whatever happens at the output pump, it publishes exactly what the
/// terminal put out before the first failed read, in order and unchanged,
/// and nothing after. It runs for as long as no read has failed.
pub proof fn lemma_output_pump_publishes_until_stopped(signals: Seq<OutputPumpSignal>)
    ensures
        0 <= output_pump_life(signals) <= signals.len(),
        output_pump_running_after(signals) <==> output_pump_life(signals) == signals.len(),
        concat(units_published(output_pump_orders(signals))) == bytes_put_out(
            signals.take(output_pump_life(signals)),
        ),
    decreases signals.len(),
{
    if signals.len() == 0 {
        assert(signals.take(0) =~= signals);
    } else {
        let before = signals.drop_last();
        let life = output_pump_life(before);
        lemma_output_pump_publishes_until_stopped(before);
        let orders = output_pump_orders(signals);
        assert(orders.drop_last() =~= output_pump_orders(before));
        if life < before.len() {
            assert(signals.take(life) =~= before.take(life));
        } else {
            assert(before.take(life) =~= before);
            match signals.last() {
                OutputPumpSignal::Read(bytes) => {
                    assert(signals.take(life + 1) =~= signals);
                    if bytes.len() > 0 {
                        let units = units_published(orders);
                        assert(units.drop_last() =~= units_published(output_pump_orders(before)));
                    } else {
                        assert(bytes_put_out(before) + bytes =~= bytes_put_out(before));
                    }
                },
                OutputPumpSignal::ReadFailed => {
                    assert(signals.take(life) =~= before);
                },
            }
        }
    }
}

/// Whether every read from the terminal in `signals` handed over at most
/// `CHUNK_SIZE` bytes, as every read into a `read_buffer` does.
pub open spec fn terminal_reads_fit(signals: Seq<OutputPumpSignal>) -> bool {
    forall|i: int|
        0 <= i < signals.len() ==> (#[trigger] signals[i] matches OutputPumpSignal::Read(bytes)
            ==> bytes.len() <= CHUNK_SIZE)
}

/// Where no read hands over more than `CHUNK_SIZE` bytes, every unit that
/// the output pump publishes holds at least one byte and at most
/// `CHUNK_SIZE`, whatever else happens at the pump.
pub proof fn lemma_published_units_fit(signals: Seq<OutputPumpSignal>)
    requires
        terminal_reads_fit(signals),
    ensures
        forall|k: int|
            0 <= k < units_published(output_pump_orders(signals)).len() ==> 1 <= (
            #[trigger] units_published(output_pump_orders(signals))[k]).len() <= CHUNK_SIZE,
    decreases signals.len(),
{
    if signals.len() > 0 {
        let before = signals.drop_last();
        assert(terminal_reads_fit(before)) by {
            assert forall|i: int| 0 <= i < before.len() implies (
            #[trigger] before[i] matches OutputPumpSignal::Read(bytes) ==> bytes.len()
                <= CHUNK_SIZE) by {
                assert(before[i] == signals[i]);
            }
        }
        lemma_published_units_fit(before);
        let orders = output_pump_orders(signals);
        assert(orders.drop_last() =~= output_pump_orders(before));
        assert(signals[signals.len() - 1] == signals.last());
        match orders.last() {
            OutputPumpOrder::Publish(bytes) => {
                let units = units_published(orders);
                assert(units.drop_last() =~= units_published(output_pump_orders(before)));
                assert(units.last() == bytes);
            },
            _ => {},
        }
    }
}

/// Whether every read in `signals` came back.
pub open spec fn terminal_alive(signals: Seq<OutputPumpSignal>) -> bool {
    forall|i: int| 0 <= i < signals.len() ==> #[trigger] signals[i] is Read
}

/// As long as reading the terminal does not fail, the output pump runs and
/// publishes all that the terminal puts out, in order and unchanged, in
/// units of which none is empty. No subscriber can hold it up: what the
/// subscribers do is no signal to the pump.
pub proof fn lemma_output_pump_publishes_all(signals: Seq<OutputPumpSignal>)
    requires
        terminal_alive(signals),
    ensures
        output_pump_running_after(signals),
        concat(units_published(output_pump_orders(signals))) == bytes_put_out(signals),
        forall|k: int|
            0 <= k < units_published(output_pump_orders(signals)).len() ==> (
            #[trigger] units_published(output_pump_orders(signals))[k]).len() > 0,
    decreases signals.len(),
{
    if signals.len() > 0 {
        let before = signals.drop_last();
        assert(terminal_alive(before)) by {
            assert forall|i: int| 0 <= i < before.len() implies #[trigger] before[i] is Read by {
                assert(before[i] == signals[i]);
            }
        }
        lemma_output_pump_publishes_all(before);
        assert(signals[signals.len() - 1] is Read);
        let orders = output_pump_orders(signals);
        assert(orders.drop_last() =~= output_pump_orders(before));
        match signals.last() {
            OutputPumpSignal::Read(bytes) => {
                if bytes.len() > 0 {
                    let units = units_published(orders);
                    assert(units.drop_last() =~= units_published(output_pump_orders(before)));
                } else {
                    assert(bytes_put_out(before) + bytes =~= bytes_put_out(before));
                }
            },
            _ => {},
        }
    }
}

/// Once a failed read has stopped the output pump, it is stopped for good:
/// from that signal on every order is `Stop`.
pub proof fn lemma_output_pump_stops_for_good(signals: Seq<OutputPumpSignal>, i: int)
    requires
        0 <= i < signals.len(),
        signals[i] is ReadFailed,
    ensures
        !output_pump_running_after(signals),
        output_pump_orders(signals).len() == signals.len(),
        forall|j: int|
            i <= j < signals.len() ==> output_pump_orders(signals)[j] == OutputPumpOrder::Stop,
    decreases signals.len(),
{
    let before = signals.drop_last();
    let orders = output_pump_orders(signals);
    lemma_output_pump_orders_len(signals);
    if i < signals.len() - 1 {
        assert(before[i] == signals[i]);
        lemma_output_pump_stops_for_good(before, i);
        assert forall|j: int| i <= j < signals.len() implies orders[j]
            == OutputPumpOrder::Stop by {
            if j < signals.len() - 1 {
                assert(orders[j] == output_pump_orders(before)[j]);
            }
        }
    }
}

/// One order is given for each signal.
pub proof fn lemma_output_pump_orders_len(signals: Seq<OutputPumpSignal>)
    ensures
        output_pump_orders(signals).len() == signals.len(),
    decreases signals.len(),
{
    if signals.len() > 0 {
        lemma_output_pump_orders_len(signals.drop_last());
    }
}

// ---------------------------------------------------------------------------
// Many clients, one terminal

/// The units of `queue` that `client` put there, in the order of the queue.
/// Each entry of the queue is a client's number and a unit.
pub open spec fn units_of(queue: Seq<(nat, Seq<u8>)>, client: nat) -> Seq<Seq<u8>>
    decreases queue.len(),
{
    if queue.len() == 0 {
        Seq::empty()
    } else if queue.last().0 == client {
        units_of(queue.drop_last(), client).push(queue.last().1)
    } else {
        units_of(queue.drop_last(), client)
    }
}

/// What the input pump is told as it takes the units of `queue` one by one.
pub open spec fn queue_signals(queue: Seq<(nat, Seq<u8>)>) -> Seq<InputPumpSignal> {
    Seq::new(queue.len(), |k: int| InputPumpSignal::Received(queue[k].1))
}

/// Writing each unit of `queue`, in the order of the queue.
pub open spec fn queue_writes(queue: Seq<(nat, Seq<u8>)>) -> Seq<InputPumpOrder> {
    Seq::new(queue.len(), |k: int| InputPumpOrder::Write(queue[k].1))
}

/// What the client sent in the first `n` of `signals` begins what it sent in
/// all of them.
pub proof fn lemma_bytes_sent_grow(signals: Seq<ClientSignal>, n: int)
    requires
        0 <= n <= signals.len(),
    ensures
        bytes_sent(signals.take(n)).is_prefix_of(bytes_sent(signals)),
    decreases signals.len(),
{
    if n == signals.len() {
        assert(signals.take(n) =~= signals);
    } else {
        let before = signals.drop_last();
        assert(signals.take(n) =~= before.take(n));
        lemma_bytes_sent_grow(before, n);
    }
}

/// Fan-in. Let the queue hand out the units of each client in the order in
/// which that client's connection enqueued them, however the units of
/// different clients are mixed. Then the pump writes the units to the
/// terminal in the order of the queue, each whole. What reaches the terminal
/// from one client is, joined, exactly what that client sent before its
/// connection ended, which is all that it sent if nothing ended the
/// connection: its bytes are neither lost nor reordered, repeated or made
/// up. And where no read hands over more than `CHUNK_SIZE` bytes, each of
/// its units holds between one byte and `CHUNK_SIZE`.
pub proof fn lemma_fan_in(queue: Seq<(nat, Seq<u8>)>, client: nat, sent: Seq<ClientSignal>)
    requires
        units_of(queue, client) == units_enqueued(client_orders(sent)),
    ensures
        input_pump_running_after(queue_signals(queue)),
        input_pump_orders(queue_signals(queue)) == queue_writes(queue),
        concat(units_of(queue, client)) == bytes_sent(sent.take(client_life(sent))),
        concat(units_of(queue, client)).is_prefix_of(bytes_sent(sent)),
        client_alive(sent) ==> concat(units_of(queue, client)) == bytes_sent(sent),
        client_reads_fit(sent) ==> forall|k: int|
            0 <= k < units_of(queue, client).len() ==> 1 <= (#[trigger] units_of(
                queue,
                client,
            )[k]).len() <= CHUNK_SIZE,
{
    let units = Seq::new(queue.len(), |k: int| queue[k].1);
    lemma_input_pump_writes_in_order(units);
    assert(queue_signals(queue) =~= Seq::new(
        units.len(),
        |k: int| InputPumpSignal::Received(units[k]),
    ));
    assert(queue_writes(queue) =~= Seq::new(units.len(), |k: int| InputPumpOrder::Write(units[k])));
    lemma_connection_relays_until_closed(sent);
    lemma_bytes_sent_grow(sent, client_life(sent));
    if client_alive(sent) {
        lemma_connection_relays_all(sent);
    }
    if client_reads_fit(sent) {
        lemma_enqueued_units_fit(sent);
    }
}

/// Fan-out. Let two clients be connected while the terminal puts out a
/// burst, and let neither fall behind, so that the subscription of each
/// gives it the units that the pump publishes, in their order. Then both are
/// written the same units in the same order, and what each is written is,
/// joined, exactly what the terminal put out.
pub proof fn lemma_fan_out(
    terminal: Seq<OutputPumpSignal>,
    first: Seq<ClientSignal>,
    second: Seq<ClientSignal>,
)
    requires
        terminal_alive(terminal),
        client_alive(first),
        client_alive(second),
        units_received(first) == units_published(output_pump_orders(terminal)),
        units_received(second) == units_published(output_pump_orders(terminal)),
    ensures
        units_written(client_orders(first)) == units_written(client_orders(second)),
        concat(units_written(client_orders(first))) == bytes_put_out(terminal),
        concat(units_written(client_orders(second))) == bytes_put_out(terminal),
{
    lemma_output_pump_publishes_all(terminal);
    lemma_connection_relays_all(first);
    lemma_connection_relays_all(second);
}

/// No replay. Let a client attach after the pump has published `before`
/// units, and let its subscription give it the units published from then
/// on. Then it is written those units and no earlier one.
pub proof fn lemma_late_client_sees_no_replay(
    terminal: Seq<OutputPumpSignal>,
    client: Seq<ClientSignal>,
    before: int,
)
    requires
        client_alive(client),
        0 <= before <= units_published(output_pump_orders(terminal)).len(),
        units_received(client) == units_published(output_pump_orders(terminal)).skip(before),
    ensures
        units_written(client_orders(client)) == units_published(
            output_pump_orders(terminal),
        ).skip(before),
{
    lemma_connection_relays_all(client);
}

/// A client that has fallen behind loses its own connection and nothing
/// else: the signal closes that connection, and it is no signal to the pump
/// of the terminal's output, which runs on as long as its reads come back.
pub proof fn lemma_lag_ends_one_connection(missed: u64, terminal: Seq<OutputPumpSignal>)
    requires
        terminal_alive(terminal),
    ensures
        client_step(true, ClientSignal::Lagged(missed)) == (false, ClientOrder::Close),
        output_pump_running_after(terminal),
{
    lemma_output_pump_publishes_all(terminal);
}

} // verus!
