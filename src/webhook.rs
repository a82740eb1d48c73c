use vstd::prelude::*;
use vstd::string::*;
use std::collections::VecDeque;
use crate::bot::Notice;
use crate::phase::elapsed;
use crate::pixels::PixelBuffer;
use crate::stats::{decimal, decimal_spec};

verus! {

/// Queue length kept after a text message is added.
pub const TEXT_QUEUE_CAP: usize = 50;

/// Queue length kept after a screenshot is added.
pub const SCREENSHOT_QUEUE_CAP: usize = 10;

/// Messages delivered per worker cycle.
pub const BATCH_SIZE: usize = 5;

/// Pause between two deliveries.
pub const DELIVERY_GAP_MS: u64 = 500;

/// Pause before looking again when no endpoint is configured.
pub const IDLE_RETRY_MS: u64 = 5000;

/// Pause between worker cycles.
pub const CYCLE_PAUSE_MS: u64 = 2000;

/// An outbound notification.
#[derive(Debug)]
pub enum WebhookMessage {
    Text(String),
    Screenshot { message: String, image_data: Vec<u8> },
}

/// The newest `cap` entries of `s`, oldest first.
pub open spec fn keep_last<A>(s: Seq<A>, cap: int) -> Seq<A> {
    if s.len() > cap {
        s.subrange(s.len() - cap, s.len() as int)
    } else {
        s
    }
}

/// The JPEG encoding of a `width`×`height` RGBA image.
pub uninterp spec fn jpeg_of(width: u32, height: u32, rgba: Seq<u8>) -> Seq<u8>;

/// The JPEG encoder takes an RGBA image of these dimensions held in that many
/// bytes: both sides between 1 and 65535, and four bytes for every pixel.
pub open spec fn jpeg_encodable(width: u32, height: u32, len: nat) -> bool {
    1 <= width <= 65535 && 1 <= height <= 65535 && len >= 4 * (width as int * height as int)
}

/// Relies on `image::RgbaImage::from_raw` and `image::DynamicImage::write_to`
/// with `ImageFormat::Jpeg`: the encoder is deterministic, so the bytes depend
/// on the dimensions and pixels alone. `from_raw` refuses a buffer shorter
/// than four bytes per pixel, the encoder refuses a side of 0 or above 65535,
/// and writing to an in-memory cursor cannot fail.
#[verifier::external_body]
fn encode_jpeg(frame: &PixelBuffer) -> (r: Option<Vec<u8>>)
    ensures
        r is Some <==> jpeg_encodable(frame.width, frame.height, frame.data@.len()),
        r matches Some(b) ==> b@ == jpeg_of(frame.width, frame.height, frame.data@),
{
    let img = image::RgbaImage::from_raw(frame.width, frame.height, frame.data.clone())?;
    let mut out = std::io::Cursor::new(Vec::new());
    image::DynamicImage::ImageRgba8(img).write_to(&mut out, image::ImageFormat::Jpeg).ok()?;
    Some(out.into_inner())
}

/// The message is a text message.
pub open spec fn is_text(m: WebhookMessage) -> bool {
    m is Text
}

/// Number of entries of `q` that are text messages (`text`) or screenshots (`!text`).
pub open spec fn kind_count(q: Seq<WebhookMessage>, text: bool) -> nat
    decreases q.len(),
{
    if q.len() == 0 {
        0
    } else {
        (if is_text(q[0]) == text {
            1nat
        } else {
            0nat
        }) + kind_count(q.drop_first(), text)
    }
}

/// Position of the oldest entry of the given kind.
pub open spec fn first_of_kind(q: Seq<WebhookMessage>, text: bool) -> int
    decreases q.len(),
{
    if q.len() == 0 || is_text(q[0]) == text {
        0
    } else {
        1 + first_of_kind(q.drop_first(), text)
    }
}

/// How many messages of a kind the queue keeps: 50 texts, 10 screenshots.
pub open spec fn kind_cap(text: bool) -> nat {
    if text {
        TEXT_QUEUE_CAP as nat
    } else {
        SCREENSHOT_QUEUE_CAP as nat
    }
}

/// The queue after `m` is added: when its kind then exceeds its cap, the
/// oldest message of that kind leaves; messages of the other kind stay.
pub open spec fn pushed(q: Seq<WebhookMessage>, m: WebhookMessage) -> Seq<WebhookMessage> {
    let p = q.push(m);
    if kind_count(p, is_text(m)) > kind_cap(is_text(m)) {
        p.remove(first_of_kind(p, is_text(m)))
    } else {
        p
    }
}

proof fn lemma_count_push(q: Seq<WebhookMessage>, m: WebhookMessage, text: bool)
    ensures
        kind_count(q.push(m), text) == kind_count(q, text) + if is_text(m) == text {
            1nat
        } else {
            0nat
        },
    decreases q.len(),
{
    if q.len() > 0 {
        lemma_count_push(q.drop_first(), m, text);
        assert(q.push(m).drop_first() =~= q.drop_first().push(m));
        assert(q.push(m)[0] == q[0]);
    } else {
        assert(q.push(m).drop_first() =~= Seq::<WebhookMessage>::empty());
        assert(kind_count(Seq::<WebhookMessage>::empty(), text) == 0);
        assert(q.push(m)[0] == m);
    }
}

proof fn lemma_first_of_kind(q: Seq<WebhookMessage>, text: bool)
    requires
        kind_count(q, text) > 0,
    ensures
        0 <= first_of_kind(q, text) < q.len(),
        is_text(q[first_of_kind(q, text)]) == text,
        forall|j: int| 0 <= j < first_of_kind(q, text) ==> is_text(#[trigger] q[j]) != text,
        kind_count(q.remove(first_of_kind(q, text)), text) == kind_count(q, text) - 1,
        kind_count(q.remove(first_of_kind(q, text)), !text) == kind_count(q, !text),
    decreases q.len(),
{
    if is_text(q[0]) == text {
        assert(q.remove(0) =~= q.drop_first());
    } else {
        let t = q.drop_first();
        lemma_first_of_kind(t, text);
        let f = first_of_kind(t, text);
        assert forall|j: int| 0 <= j < f + 1 implies is_text(#[trigger] q[j]) != text by {
            if j > 0 {
                assert(q[j] == t[j - 1]);
            }
        }
        let r = q.remove(f + 1);
        assert(r[0] == q[0]);
        assert(r.drop_first() =~= t.remove(f));
    }
}

proof fn lemma_count_skip(q: Seq<WebhookMessage>, j: int, text: bool)
    requires
        0 <= j <= q.len(),
    ensures
        kind_count(q.skip(j), text) <= kind_count(q, text),
    decreases j,
{
    if j > 0 {
        lemma_count_skip(q.drop_first(), j - 1, text);
        assert(q.skip(j) =~= q.drop_first().skip(j - 1));
    } else {
        assert(q.skip(0) =~= q);
    }
}

/// Bounded, drop-oldest queue of outbound notifications and the pacing of its
/// worker. Text messages and screenshots are capped separately.
pub struct WebhookManager {
    pub queue: VecDeque<WebhookMessage>,
    pub running: bool,
    /// When the last periodic screenshot was taken.
    pub last_screenshot_ms: u64,
}

impl WebhookManager {
    /// At most 50 text messages and at most 10 screenshots are queued.
    pub open spec fn wf(&self) -> bool {
        &&& kind_count(self.queue@, true) <= TEXT_QUEUE_CAP
        &&& kind_count(self.queue@, false) <= SCREENSHOT_QUEUE_CAP
    }

    pub fn new(now: u64) -> (m: WebhookManager)
        ensures
            m.wf(),
            m.queue@.len() == 0,
            !m.running,
            m.last_screenshot_ms == now,
    {
        WebhookManager { queue: VecDeque::new(), running: false, last_screenshot_ms: now }
    }

    pub fn start(&mut self)
        ensures
            final(self).running,
            final(self).queue@ == old(self).queue@,
            final(self).last_screenshot_ms == old(self).last_screenshot_ms,
    {
        self.running = true;
    }

    pub fn stop(&mut self)
        ensures
            !final(self).running,
            final(self).queue@ == old(self).queue@,
            final(self).last_screenshot_ms == old(self).last_screenshot_ms,
    {
        self.running = false;
    }

    fn push_capped(&mut self, m: WebhookMessage)
        requires
            old(self).wf(),
        ensures
            final(self).wf(),
            final(self).queue@ == pushed(old(self).queue@, m),
            final(self).running == old(self).running,
            final(self).last_screenshot_ms == old(self).last_screenshot_ms,
    {
        let text = match &m {
            WebhookMessage::Text(_) => true,
            WebhookMessage::Screenshot { .. } => false,
        };
        let cap = if text {
            TEXT_QUEUE_CAP
        } else {
            SCREENSHOT_QUEUE_CAP
        };
        let ghost q0 = self.queue@;
        proof {
            lemma_count_push(q0, m, true);
            lemma_count_push(q0, m, false);
        }
        self.queue.push_back(m);
        let ghost p = self.queue@;
        let mut count: usize = 0;
        let mut i: usize = 0;
        while i < self.queue.len()
            invariant
                self.queue@ == p,
                i <= p.len(),
                count <= i,
                count == kind_count(p.subrange(0, i as int), text),
            decreases p.len() - i,
        {
            proof {
                lemma_count_push(p.subrange(0, i as int), p[i as int], text);
                assert(p.subrange(0, i + 1) =~= p.subrange(0, i as int).push(p[i as int]));
            }
            let is_t = match &self.queue[i] {
                WebhookMessage::Text(_) => true,
                WebhookMessage::Screenshot { .. } => false,
            };
            if is_t == text {
                count = count + 1;
            }
            i = i + 1;
        }
        assert(p.subrange(0, p.len() as int) =~= p);
        if count > cap {
            proof {
                lemma_first_of_kind(p, text);
            }
            let ghost f = first_of_kind(p, text);
            let qlen = self.queue.len();
            let mut k: usize = 0;
            loop
                invariant
                    self.queue@ == p,
                    qlen == p.len(),
                    0 <= f < p.len(),
                    is_text(p[f]) == text,
                    forall|j: int| 0 <= j < f ==> is_text(#[trigger] p[j]) != text,
                    k <= f,
                ensures
                    k == f,
                decreases f - k,
            {
                let is_t = match &self.queue[k] {
                    WebhookMessage::Text(_) => true,
                    WebhookMessage::Screenshot { .. } => false,
                };
                assert(is_t == is_text(p[k as int]));
                if is_t == text {
                    break;
                }
                k = k + 1;
            }
            assert(k == f);
            self.queue.remove(k);
        }
    }

    /// Queues a text message; beyond 50 queued texts the oldest text is dropped.
    pub fn send_message(&mut self, message: String)
        requires
            old(self).wf(),
        ensures
            final(self).wf(),
            final(self).queue@ == pushed(old(self).queue@, WebhookMessage::Text(message)),
            final(self).running == old(self).running,
            final(self).last_screenshot_ms == old(self).last_screenshot_ms,
    {
        self.push_capped(WebhookMessage::Text(message));
    }

    /// Queues a screenshot; beyond 10 queued screenshots the oldest screenshot
    /// is dropped. Text messages are left alone.
    pub fn send_screenshot(&mut self, message: String, image_data: Vec<u8>)
        requires
            old(self).wf(),
        ensures
            final(self).wf(),
            final(self).queue@ == pushed(
                old(self).queue@,
                WebhookMessage::Screenshot { message, image_data },
            ),
            final(self).running == old(self).running,
            final(self).last_screenshot_ms == old(self).last_screenshot_ms,
    {
        self.push_capped(WebhookMessage::Screenshot { message, image_data });
    }

    /// Encodes `frame` as JPEG and queues it with `message`; returns whether
    /// it was queued, which it is exactly when the encoder accepts the frame.
    pub fn send_screenshot_frame(&mut self, message: String, frame: &PixelBuffer) -> (queued: bool)
        requires
            old(self).wf(),
        ensures
            final(self).wf(),
            queued == jpeg_encodable(frame.width, frame.height, frame.data@.len()),
            queued ==> exists|d: Vec<u8>|
                d@ == jpeg_of(frame.width, frame.height, frame.data@) && final(self).queue@
                    == pushed(
                    old(self).queue@,
                    WebhookMessage::Screenshot { message, image_data: d },
                ),
            !queued ==> final(self).queue@ == old(self).queue@,
            final(self).running == old(self).running,
            final(self).last_screenshot_ms == old(self).last_screenshot_ms,
    {
        match encode_jpeg(frame) {
            Some(bytes) => {
                let ghost d = bytes;
                self.send_screenshot(message, bytes);
                assert(d@ == jpeg_of(frame.width, frame.height, frame.data@));
                true
            },
            None => false,
        }
    }

    /// Takes the next batch for delivery: up to five messages, oldest first,
    /// and none at all while no endpoint is configured.
    pub fn take_batch(&mut self, endpoint_configured: bool) -> (batch: Vec<WebhookMessage>)
        requires
            old(self).wf(),
        ensures
            final(self).wf(),
            !endpoint_configured ==> batch@.len() == 0 && final(self).queue@ == old(self).queue@,
            endpoint_configured ==> {
                let k = if old(self).queue@.len() < BATCH_SIZE {
                    old(self).queue@.len() as int
                } else {
                    BATCH_SIZE as int
                };
                &&& batch@ == old(self).queue@.take(k)
                &&& final(self).queue@ == old(self).queue@.skip(k)
            },
            final(self).running == old(self).running,
            final(self).last_screenshot_ms == old(self).last_screenshot_ms,
    {
        let mut batch: Vec<WebhookMessage> = Vec::new();
        if !endpoint_configured {
            return batch;
        }
        let ghost q0 = self.queue@;
        while batch.len() < BATCH_SIZE && self.queue.len() > 0
            invariant
                batch@.len() <= BATCH_SIZE,
                batch@.len() <= q0.len(),
                batch@ == q0.take(batch@.len() as int),
                self.queue@ == q0.skip(batch@.len() as int),
                self.running == old(self).running,
                self.last_screenshot_ms == old(self).last_screenshot_ms,
                q0 == old(self).queue@,
            decreases self.queue@.len(),
        {
            let m = self.queue.pop_front().unwrap();
            batch.push(m);
            assert(batch@ =~= q0.take(batch@.len() as int));
            assert(self.queue@ =~= q0.skip(batch@.len() as int));
        }
        proof {
            lemma_count_skip(q0, batch@.len() as int, true);
            lemma_count_skip(q0, batch@.len() as int, false);
        }
        batch
    }

    /// Whether a periodic screenshot is due at `now`; when it is, the period restarts.
    pub fn check_periodic_screenshot(
        &mut self,
        enabled: bool,
        endpoint_configured: bool,
        interval_mins: u32,
        now: u64,
    ) -> (due: bool)
        ensures
            due == (enabled && endpoint_configured && elapsed(old(self).last_screenshot_ms, now)
                >= interval_mins as int * 60000),
            final(self).last_screenshot_ms == if due {
                now
            } else {
                old(self).last_screenshot_ms
            },
            final(self).queue@ == old(self).queue@,
            final(self).running == old(self).running,
    {
        if !enabled || !endpoint_configured {
            return false;
        }
        let waited = if now >= self.last_screenshot_ms {
            now - self.last_screenshot_ms
        } else {
            0
        };
        if waited >= interval_mins as u64 * 60000 {
            self.last_screenshot_ms = now;
            true
        } else {
            false
        }
    }
}

/// Queue contents after text messages `msgs` are sent one by one onto `q`.
pub open spec fn after_texts(q: Seq<WebhookMessage>, msgs: Seq<String>) -> Seq<WebhookMessage>
    decreases msgs.len(),
{
    if msgs.len() == 0 {
        q
    } else {
        pushed(after_texts(q, msgs.drop_last()), WebhookMessage::Text(msgs.last()))
    }
}

pub open spec fn as_texts(msgs: Seq<String>) -> Seq<WebhookMessage> {
    msgs.map_values(|m: String| WebhookMessage::Text(m))
}

pub open spec fn all_texts(q: Seq<WebhookMessage>) -> bool {
    forall|i: int| 0 <= i < q.len() ==> is_text(#[trigger] q[i])
}

proof fn lemma_all_texts_count(q: Seq<WebhookMessage>)
    requires
        all_texts(q),
    ensures
        kind_count(q, true) == q.len(),
        q.len() > 0 ==> first_of_kind(q, true) == 0,
    decreases q.len(),
{
    if q.len() > 0 {
        assert(all_texts(q.drop_first())) by {
            assert forall|i: int| 0 <= i < q.drop_first().len() implies is_text(
                #[trigger] q.drop_first()[i],
            ) by {
                assert(q.drop_first()[i] == q[i + 1]);
            }
        }
        lemma_all_texts_count(q.drop_first());
    }
}

/// On a queue of text messages, sending text messages one at a time keeps
/// exactly the newest 50 of everything queued, in order: the oldest are the
/// ones dropped.
pub proof fn lemma_text_queue_keeps_newest(q: Seq<WebhookMessage>, msgs: Seq<String>)
    requires
        all_texts(q),
        q.len() <= TEXT_QUEUE_CAP,
    ensures
        after_texts(q, msgs) == keep_last(q + as_texts(msgs), TEXT_QUEUE_CAP as int),
    decreases msgs.len(),
{
    let c = TEXT_QUEUE_CAP as int;
    if msgs.len() == 0 {
        assert(q + as_texts(msgs) =~= q);
    } else {
        let init = msgs.drop_last();
        lemma_text_queue_keeps_newest(q, init);
        let all = q + as_texts(msgs);
        let prev = q + as_texts(init);
        let m = WebhookMessage::Text(msgs.last());
        assert(all =~= prev.push(m));
        let kept = keep_last(prev, c);
        let p = kept.push(m);
        assert(all_texts(p)) by {
            assert forall|i: int| 0 <= i < p.len() implies is_text(#[trigger] p[i]) by {
                if i < kept.len() {
                    if prev.len() > c {
                        assert(kept[i] == prev[prev.len() - c + i]);
                    }
                    let k = if prev.len() > c {
                        prev.len() - c + i
                    } else {
                        i
                    };
                    if k < q.len() {
                        assert(prev[k] == q[k]);
                    } else {
                        assert(prev[k] == as_texts(init)[k - q.len()]);
                    }
                }
            }
        }
        lemma_all_texts_count(p);
        if p.len() > c {
            assert(p.remove(0) =~= keep_last(all, c));
        } else {
            assert(p =~= keep_last(all, c));
        }
    }
}

/// Sending a screenshot leaves every text message queued and keeps at most
/// 10 screenshots.
pub proof fn lemma_screenshot_keeps_texts(q: Seq<WebhookMessage>, message: String, image_data: Vec<u8>)
    requires
        kind_count(q, false) <= SCREENSHOT_QUEUE_CAP,
    ensures
        kind_count(pushed(q, WebhookMessage::Screenshot { message, image_data }), true)
            == kind_count(q, true),
        kind_count(pushed(q, WebhookMessage::Screenshot { message, image_data }), false) == if kind_count(q, false)
            < SCREENSHOT_QUEUE_CAP {
            kind_count(q, false) + 1
        } else {
            SCREENSHOT_QUEUE_CAP as nat
        },
{
    let m = WebhookMessage::Screenshot { message, image_data };
    lemma_count_push(q, m, true);
    lemma_count_push(q, m, false);
    if kind_count(q.push(m), false) > SCREENSHOT_QUEUE_CAP {
        lemma_first_of_kind(q.push(m), false);
    }
}

/// The text delivered for a notice.
pub open spec fn notice_text(n: Notice) -> Seq<char> {
    match n {
        Notice::Started => "Fishing bot started! Beginning automated fishing session..."@,
        Notice::Paused => "Bot paused"@,
        Notice::Resumed => "Bot resumed"@,
        Notice::Milestone { fish } => "Milestone reached! "@ + decimal_spec(fish as nat)
            + " fish caught this session!"@,
        Notice::Fed { hunger } => "Fed character (hunger was "@ + decimal_spec(hunger as nat)
            + "%)"@,
        Notice::FedBlind => "OCR failed - fed character as a safety measure"@,
        Notice::CriticalError { errors, consecutive } => "Critical error alert: error #"@
            + decimal_spec(errors as nat) + " ("@ + decimal_spec(consecutive as nat)
            + " in a row)"@,
        Notice::SessionSummary { fish, runtime_seconds, best_streak } => "Session complete! Fish caught: "@
            + decimal_spec(fish as nat) + ", runtime: "@ + decimal_spec(
            (runtime_seconds / 3600) as nat,
        ) + "h "@ + decimal_spec(((runtime_seconds % 3600) / 60) as nat) + "m, best streak: "@
            + decimal_spec(best_streak as nat),
    }
}

/// Renders a notice as the text message delivered for it.
pub fn render_notice(n: Notice) -> (s: String)
    ensures
        s@ == notice_text(n),
{
    match n {
        Notice::Started => String::from_str(
            "Fishing bot started! Beginning automated fishing session...",
        ),
        Notice::Paused => String::from_str("Bot paused"),
        Notice::Resumed => String::from_str("Bot resumed"),
        Notice::Milestone { fish } => {
            let mut s = String::from_str("Milestone reached! ");
            let d = decimal(fish);
            s.append(d.as_str());
            s.append(" fish caught this session!");
            s
        },
        Notice::Fed { hunger } => {
            let mut s = String::from_str("Fed character (hunger was ");
            let d = decimal(hunger as u64);
            s.append(d.as_str());
            s.append("%)");
            s
        },
        Notice::FedBlind => String::from_str("OCR failed - fed character as a safety measure"),
        Notice::CriticalError { errors, consecutive } => {
            let mut s = String::from_str("Critical error alert: error #");
            let d = decimal(errors as u64);
            s.append(d.as_str());
            s.append(" (");
            let c = decimal(consecutive as u64);
            s.append(c.as_str());
            s.append(" in a row)");
            s
        },
        Notice::SessionSummary { fish, runtime_seconds, best_streak } => {
            let mut s = String::from_str("Session complete! Fish caught: ");
            let d = decimal(fish);
            s.append(d.as_str());
            s.append(", runtime: ");
            let h = decimal(runtime_seconds / 3600);
            s.append(h.as_str());
            s.append("h ");
            let m = decimal((runtime_seconds % 3600) / 60);
            s.append(m.as_str());
            s.append("m, best streak: ");
            let b = decimal(best_streak as u64);
            s.append(b.as_str());
            s
        },
    }
}

} // verus!
