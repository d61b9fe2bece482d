use crate::message::Message;
use crate::queue::{BoundedQueue, Dequeue};
use crate::steps::{
    message_text, on_inbound_dequeued, on_line_read, on_outbound_dequeued, on_received,
    InboundAction, OutboundAction, TransportError,
};
use vstd::prelude::*;

verus! {

/// Each line as a text message, in order.
pub open spec fn text_messages(lines: Seq<String>) -> Seq<Message> {
    lines.map_values(|l: String| Message::Text(l))
}

/// The reader stops at line `k`: every line before it is non-empty, and `k`
/// is either the end of the input or an empty read.
pub open spec fn input_ends_at(lines: Seq<String>, k: int) -> bool {
    &&& 0 <= k <= lines.len()
    &&& forall|j: int| 0 <= j < k ==> (#[trigger] lines[j])@.len() > 0
    &&& k < lines.len() ==> lines[k]@.len() == 0
}

/// `sent` is what reaches the connection when the reader reads `lines`.
pub open spec fn outbound_relayed(lines: Seq<String>, sent: Seq<Message>) -> bool {
    exists|k: int| input_ends_at(lines, k) && sent == text_messages(lines.take(k))
}

/// The text that queued messages put on the output stream, oldest first.
pub open spec fn queue_text(ms: Seq<Message>) -> Seq<char>
    decreases ms.len(),
{
    if ms.len() == 0 {
        Seq::empty()
    } else {
        queue_text(ms.drop_last()) + message_text(ms.last())
    }
}

/// The text one item of the connection's source puts on the output stream.
pub open spec fn item_text(item: Result<Message, TransportError>) -> Seq<char> {
    match item {
        Ok(m) => message_text(m),
        Err(_) => Seq::empty(),
    }
}

/// The output stream's contents after the source yielded `items`.
pub open spec fn received_text(items: Seq<Result<Message, TransportError>>) -> Seq<char>
    decreases items.len(),
{
    if items.len() == 0 {
        Seq::empty()
    } else {
        received_text(items.drop_last()) + item_text(items.last())
    }
}

proof fn lemma_queue_text_front(ms: Seq<Message>)
    requires
        ms.len() > 0,
    ensures
        queue_text(ms) == message_text(ms[0]) + queue_text(ms.drop_first()),
    decreases ms.len(),
{
    if ms.len() == 1 {
        assert(ms.drop_last() =~= Seq::<Message>::empty());
        assert(ms.drop_first() =~= Seq::<Message>::empty());
        assert(queue_text(ms.drop_last()) =~= Seq::<char>::empty());
        assert(Seq::<char>::empty() + message_text(ms[0]) =~= message_text(ms[0]));
        assert(message_text(ms[0]) + Seq::<char>::empty() =~= message_text(ms[0]));
    } else {
        lemma_queue_text_front(ms.drop_last());
        assert(ms.drop_last().drop_first() =~= ms.drop_first().drop_last());
        assert(ms.drop_first().last() == ms.last());
        assert(ms.drop_last()[0] == ms[0]);
        assert(queue_text(ms) =~= message_text(ms[0]) + queue_text(ms.drop_first()));
    }
}

proof fn lemma_queue_text_push(ms: Seq<Message>, m: Message)
    ensures
        queue_text(ms.push(m)) == queue_text(ms) + message_text(m),
{
    assert(ms.push(m).drop_last() =~= ms);
}

/// Splitting the source's items splits what they write.
pub proof fn lemma_received_text_append(
    a: Seq<Result<Message, TransportError>>,
    b: Seq<Result<Message, TransportError>>,
)
    ensures
        received_text(a + b) == received_text(a) + received_text(b),
    decreases b.len(),
{
    if b.len() == 0 {
        assert(a + b =~= a);
        assert(received_text(a) + Seq::<char>::empty() =~= received_text(a));
    } else {
        lemma_received_text_append(a, b.drop_last());
        assert((a + b).drop_last() =~= a + b.drop_last());
        assert((a + b).last() == b.last());
        assert(received_text(a + b) =~= received_text(a) + received_text(b));
    }
}

/// A frame that is not text — a receive error, binary data, a ping, a pong or
/// a close — leaves the output as if it had never come: the text frames
/// before and after it are still written, in order.
pub proof fn lemma_non_text_frame_ignored(
    before: Seq<Result<Message, TransportError>>,
    frame: Result<Message, TransportError>,
    after: Seq<Result<Message, TransportError>>,
)
    requires
        !(frame matches Ok(Message::Text(_))),
    ensures
        received_text(before.push(frame) + after) == received_text(before) + received_text(after),
{
    lemma_received_text_append(before.push(frame), after);
    assert(before.push(frame).drop_last() =~= before);
    assert(item_text(frame) =~= Seq::<char>::empty());
    assert(received_text(before.push(frame)) =~= received_text(before));
}

/// When every line read is non-empty (each carries its terminator), the
/// connection receives exactly the lines, unmodified and in order.
pub proof fn lemma_lines_sent_in_order(lines: Seq<String>, sent: Seq<Message>)
    requires
        forall|j: int| 0 <= j < lines.len() ==> (#[trigger] lines[j])@.len() > 0,
        outbound_relayed(lines, sent),
    ensures
        sent == text_messages(lines),
{
    let k = choose|k: int| input_ends_at(lines, k) && sent == text_messages(lines.take(k));
    assert(k == lines.len());
    assert(lines.take(k) =~= lines);
}

/// Runs the outbound direction over the lines the input yields: the reader
/// queues each line as a text message, suspending while the queue is full,
/// and the outbound loop sends what it takes from the queue in order.
/// Returns the messages sent on the connection.
pub fn relay_outbound(lines: Vec<String>, capacity: usize) -> (sent: Vec<Message>)
    requires
        capacity > 0,
    ensures
        outbound_relayed(lines@, sent@),
{
    let ghost all = lines@;
    let mut rest = lines;
    let mut queue: BoundedQueue<Message> = BoundedQueue::new(capacity);
    let mut sent: Vec<Message> = Vec::new();
    let ghost mut done: int = 0;
    let mut reading = true;
    while reading
        invariant
            queue.wf(),
            !queue.spec_closed(),
            0 <= done <= all.len(),
            reading ==> rest@ == all.skip(done),
            forall|j: int| 0 <= j < done ==> (#[trigger] all[j])@.len() > 0,
            sent@ + queue@ == text_messages(all.take(done)),
            !reading ==> input_ends_at(all, done),
        decreases rest@.len() + (if reading { 1int } else { 0int }),
    {
        let ghost rest0 = rest@;
        let read = if rest.len() > 0 {
            Some(rest.remove(0))
        } else {
            None
        };
        let ghost read_g = read;
        match on_line_read(read) {
            Some(m) => {
                if queue.is_full() {
                    let ghost q0 = queue@;
                    match on_outbound_dequeued(queue.try_pop()) {
                        OutboundAction::Send(x) => {
                            sent.push(x);
                        },
                        _ => {},
                    }
                    assert(sent@ + queue@ =~= text_messages(all.take(done))) by {
                        assert(q0 =~= seq![q0[0]] + q0.drop_first());
                    }
                }
                let ghost q1 = queue@;
                let pushed = queue.try_push(m);
                assert(pushed is Ok);
                assert(read_g == Some(all[done]));
                assert(all.take(done + 1) =~= all.take(done).push(all[done]));
                assert(text_messages(all.take(done + 1)) =~= text_messages(all.take(done)).push(
                    Message::Text(all[done]),
                ));
                assert(sent@ + queue@ =~= (sent@ + q1).push(Message::Text(all[done])));
                proof {
                    done = done + 1;
                }
                assert(rest@ =~= all.skip(done));
            },
            None => {
                proof {
                    if rest0.len() > 0 {
                        assert(rest0[0] == all[done]);
                    }
                }
                reading = false;
            },
        }
    }
    queue.close();
    let mut sending = true;
    while sending
        invariant
            queue.wf(),
            queue.spec_closed(),
            input_ends_at(all, done),
            sending ==> sent@ + queue@ == text_messages(all.take(done)),
            !sending ==> sent@ == text_messages(all.take(done)),
        decreases queue@.len() + (if sending { 1int } else { 0int }),
    {
        let ghost q0 = queue@;
        match on_outbound_dequeued(queue.try_pop()) {
            OutboundAction::Send(x) => {
                sent.push(x);
                assert(sent@ + queue@ =~= text_messages(all.take(done))) by {
                    assert(q0 =~= seq![q0[0]] + q0.drop_first());
                }
            },
            _ => {
                assert(sent@ + q0 =~= sent@);
                sending = false;
            },
        }
    }
    sent
}

/// Output writer's step on one dequeued message: writes its text, if any.
fn write_dequeued(out: &mut String, m: Message)
    ensures
        final(out)@ == old(out)@ + message_text(m),
{
    let ghost mg = m;
    match on_inbound_dequeued(m) {
        Some(s) => {
            out.append(s.as_str());
        },
        None => {
            assert(old(out)@ + message_text(mg) =~= old(out)@);
        },
    }
}

/// Runs the inbound direction over what the connection's source yields until
/// it closes: the inbound loop queues each received message, suspending
/// while the queue is full, and drops receive errors; the output writer takes
/// from the queue in order and writes the payload of each text message.
/// Returns what is written to the output stream: the text payloads in the
/// order they were received.
pub fn relay_inbound(received: Vec<Result<Message, TransportError>>, capacity: usize) -> (out:
    String)
    requires
        capacity > 0,
    ensures
        out@ == received_text(received@),
{
    let ghost all = received@;
    let mut rest = received;
    let mut queue: BoundedQueue<Message> = BoundedQueue::new(capacity);
    let mut out = String::new();
    let ghost mut done: int = 0;
    let mut listening = true;
    while listening
        invariant
            queue.wf(),
            !queue.spec_closed(),
            0 <= done <= all.len(),
            rest@ == all.skip(done),
            received_text(all.take(done)) == out@ + queue_text(queue@),
            !listening ==> done == all.len(),
        decreases rest@.len() + (if listening { 1int } else { 0int }),
    {
        let ghost rest0 = rest@;
        let item = if rest.len() > 0 {
            Some(rest.remove(0))
        } else {
            None
        };
        let ghost item_g = item;
        match on_received(item) {
            InboundAction::Forward(m) => {
                assert(item_g == Some(all[done]));
                if queue.is_full() {
                    let ghost q0 = queue@;
                    match queue.try_pop() {
                        Dequeue::Item(x) => {
                            proof {
                                lemma_queue_text_front(q0);
                            }
                            write_dequeued(&mut out, x);
                        },
                        _ => {},
                    }
                }
                let ghost q1 = queue@;
                let ghost out1 = out@;
                assert(received_text(all.take(done)) == out1 + queue_text(q1));
                let pushed = queue.try_push(m);
                assert(pushed is Ok);
                proof {
                    lemma_queue_text_push(q1, all[done]->Ok_0);
                    assert(all.take(done + 1).drop_last() =~= all.take(done));
                    assert(received_text(all.take(done + 1)) =~= out@ + queue_text(queue@));
                    done = done + 1;
                }
                assert(rest@ =~= all.skip(done));
            },
            InboundAction::Skip => {
                proof {
                    assert(item_g == Some(all[done]));
                    assert(all.take(done + 1).drop_last() =~= all.take(done));
                    assert(received_text(all.take(done + 1)) =~= received_text(all.take(done)));
                    done = done + 1;
                }
                assert(rest@ =~= all.skip(done));
            },
            InboundAction::Finish => {
                assert(rest0.len() == 0);
                listening = false;
            },
        }
    }
    assert(all.take(done) =~= all);
    queue.close();
    let mut writing = true;
    while writing
        invariant
            queue.wf(),
            queue.spec_closed(),
            received_text(all) == out@ + queue_text(queue@),
            !writing ==> queue@.len() == 0,
        decreases queue@.len() + (if writing { 1int } else { 0int }),
    {
        let ghost q0 = queue@;
        match queue.try_pop() {
            Dequeue::Item(x) => {
                proof {
                    lemma_queue_text_front(q0);
                }
                write_dequeued(&mut out, x);
            },
            _ => {
                writing = false;
            },
        }
    }
    assert(out@ + queue_text(queue@) =~= out@);
    out
}

} // verus!
