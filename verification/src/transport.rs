//! The approval transport's pure part: the approval message, the inline
//! keyboard's callback data, and parsing a tapped button back.

use vstd::prelude::*;
use crate::protocol::{ApprovalRequest, Decision, RiskLevel};
use crate::text::{chars_of, has_prefix, has_suffix, replace_char, replaced, string_from_chars, sub_chars, text_eq};

verus! {

// ─── Callback Update ────────────────────────────────────────────────

/// A tapped inline-keyboard button.
#[derive(Debug, Clone)]
pub struct CallbackUpdate {
    /// The callback data (e.g., "approve_once:req_123")
    pub callback_data: String,
    /// The message ID this callback belongs to
    pub message_id: i64,
    /// The update ID
    pub update_id: i64,
}

/// What a tapped button asks for.
#[derive(Debug, Clone, Copy, PartialEq, Eq, Structural)]
pub enum CallbackAction {
    Deny,
    ApproveOnce,
    ApproveForDuration { duration_secs: u64 },
    ApproveAlways,
}

/// `i` is the position of the first `:` in `s`.
pub open spec fn first_colon(s: Seq<char>, i: int) -> bool {
    0 <= i < s.len() && s[i] == ':' && forall|j: int| 0 <= j < i ==> s[j] != ':'
}

/// The action a callback word names.
pub open spec fn callback_word(w: Seq<char>) -> Option<CallbackAction> {
    if w == "deny"@ {
        Some(CallbackAction::Deny)
    } else if w == "approve_once"@ {
        Some(CallbackAction::ApproveOnce)
    } else if w == "approve_10min"@ {
        Some(CallbackAction::ApproveForDuration { duration_secs: 600 })
    } else if w == "approve_always"@ {
        Some(CallbackAction::ApproveAlways)
    } else {
        None
    }
}

/// Callback data `word:rest` (split at the first `:`) with a known word
/// gives the request id `rest` and the word's action.
pub open spec fn callback_decision(data: Seq<char>) -> Option<(Seq<char>, CallbackAction)> {
    if exists|i: int| first_colon(data, i) {
        let i = choose|i: int| first_colon(data, i);
        match callback_word(data.take(i)) {
            Some(a) => Some((data.skip(i + 1), a)),
            None => None,
        }
    } else {
        None
    }
}

/// The first colon is unique.
proof fn lemma_first_colon_unique(s: Seq<char>, i: int, k: int)
    requires
        first_colon(s, i),
        first_colon(s, k),
    ensures
        i == k,
{
    if i < k {
        assert(s[i] != ':');
    } else if k < i {
        assert(s[k] != ':');
    }
}

impl CallbackUpdate {
    /// Parse the callback data into a decision
    pub fn parse_decision(&self) -> (r: Option<(String, CallbackAction)>)
        ensures
            match r {
                Some((id, a)) => callback_decision(self.callback_data@) == Some((id@, a)),
                None => callback_decision(self.callback_data@) is None,
            },
    {
        let data = chars_of(self.callback_data.as_str());
        let mut i: usize = 0;
        while i < data.len()
            invariant
                data@ == self.callback_data@,
                i <= data.len(),
                forall|j: int| 0 <= j < i ==> data@[j] != ':',
            ensures
                i <= data.len(),
                forall|j: int| 0 <= j < i ==> data@[j] != ':',
                i < data.len() ==> data@[i as int] == ':',
            decreases data.len() - i,
        {
            if data[i] == ':' {
                break;
            }
            i = i + 1;
        }
        if i == data.len() {
            assert forall|k: int| !first_colon(data@, k) by {
                if 0 <= k < data@.len() {
                    assert(data@[k] != ':');
                }
            }
            return None;
        }
        proof {
            assert(first_colon(data@, i as int));
            let k = choose|k: int| first_colon(data@, k);
            lemma_first_colon_unique(data@, i as int, k);
        }
        let word_chars = sub_chars(&data, 0, i);
        let rest_chars = sub_chars(&data, i + 1, data.len());
        assert(data@.subrange(0, i as int) =~= data@.take(i as int));
        assert(data@.subrange(i + 1, data@.len() as int) =~= data@.skip(i + 1));
        let word = string_from_chars(&word_chars);
        let action = if text_eq(word.as_str(), "deny") {
            CallbackAction::Deny
        } else if text_eq(word.as_str(), "approve_once") {
            CallbackAction::ApproveOnce
        } else if text_eq(word.as_str(), "approve_10min") {
            CallbackAction::ApproveForDuration { duration_secs: 600 }
        } else if text_eq(word.as_str(), "approve_always") {
            CallbackAction::ApproveAlways
        } else {
            return None;
        };
        Some((string_from_chars(&rest_chars), action))
    }
}

// ─── Inline keyboard ────────────────────────────────────────────────

/// One button of the approval message's inline keyboard.
#[derive(Debug, Clone)]
pub struct KeyboardButton {
    /// The button label
    pub text: String,
    /// The data sent back when the button is tapped
    pub callback_data: String,
}

/// The callback word that asks for an action.
pub open spec fn word_for(a: CallbackAction) -> Seq<char> {
    match a {
        CallbackAction::Deny => "deny"@,
        CallbackAction::ApproveOnce => "approve_once"@,
        CallbackAction::ApproveForDuration { .. } => "approve_10min"@,
        CallbackAction::ApproveAlways => "approve_always"@,
    }
}

/// The label of the button that asks for an action.
pub open spec fn label_for(a: CallbackAction) -> Seq<char> {
    match a {
        CallbackAction::Deny => "❌ Deny"@,
        CallbackAction::ApproveOnce => "✅ Once"@,
        CallbackAction::ApproveForDuration { .. } => "⏰ 10 min"@,
        CallbackAction::ApproveAlways => "♾️ Always"@,
    }
}

/// The actions of the four buttons, in order: deny, once, ten minutes,
/// always.
pub open spec fn button_actions() -> Seq<CallbackAction> {
    seq![
        CallbackAction::Deny,
        CallbackAction::ApproveOnce,
        CallbackAction::ApproveForDuration { duration_secs: 600 },
        CallbackAction::ApproveAlways,
    ]
}

fn button(label: &str, word: &str, request_id: &str) -> (b: KeyboardButton)
    ensures
        b.text@ == label@,
        b.callback_data@ == word@ + ":"@ + request_id@,
{
    let mut data = String::from_str(word);
    data.append(":");
    data.append(request_id);
    KeyboardButton { text: String::from_str(label), callback_data: data }
}

/// The four buttons of the approval message: deny, approve once, approve
/// for ten minutes, approve always; each carries `word:request_id`.
pub fn inline_keyboard_buttons(request: &ApprovalRequest) -> (r: Vec<KeyboardButton>)
    ensures
        r@.len() == 4,
        forall|k: int|
            0 <= k < 4 ==> r@[k].text@ == label_for(button_actions()[k]) && r@[k].callback_data@
                == word_for(button_actions()[k]) + ":"@ + request.request_id@,
{
    let id = request.request_id.as_str();
    let mut r: Vec<KeyboardButton> = Vec::new();
    r.push(button("❌ Deny", "deny", id));
    r.push(button("✅ Once", "approve_once", id));
    r.push(button("⏰ 10 min", "approve_10min", id));
    r.push(button("♾️ Always", "approve_always", id));
    r
}

// ─── Message Formatting ─────────────────────────────────────────────

/// HTML escaping of `&`, `<` and `>`, in that order.
pub open spec fn escaped_html(s: Seq<char>) -> Seq<char> {
    replaced(replaced(replaced(s, '&', "&amp;"@), '<', "&lt;"@), '>', "&gt;"@)
}

/// Escape `&`, `<` and `>` for Telegram's HTML mode
pub fn escape_html(s: &str) -> (r: String)
    ensures
        r@ == escaped_html(s@),
{
    let a = replace_char(s, '&', "&amp;");
    let b = replace_char(a.as_str(), '<', "&lt;");
    replace_char(b.as_str(), '>', "&gt;")
}

/// The coloured marker of a risk level.
pub open spec fn risk_marker(risk: RiskLevel) -> Seq<char> {
    match risk {
        RiskLevel::Low => "🟢"@,
        RiskLevel::Medium => "🟡"@,
        RiskLevel::High => "🟠"@,
        RiskLevel::Critical => "🔴"@,
    }
}

/// The recommendation shown for an asked action at high or critical risk.
pub open spec fn recommendation_text(risk: RiskLevel, recommendation: Decision) -> Option<Seq<char>> {
    match (risk, recommendation) {
        (RiskLevel::Critical, Decision::Ask) => Some("high risk, require explicit approval"@),
        (RiskLevel::High, Decision::Ask) => Some("elevated risk, review carefully"@),
        _ => None,
    }
}

/// The reason lines: a bullet and the escaped reason on each.
pub open spec fn reason_lines(reasons: Seq<Seq<char>>) -> Seq<char>
    decreases reasons.len(),
{
    if reasons.len() == 0 {
        Seq::empty()
    } else {
        reason_lines(reasons.drop_last()) + "• "@ + escaped_html(reasons.last()) + "\n"@
    }
}

/// The approval message for a request.
pub open spec fn approval_message(request: ApprovalRequest) -> Seq<char> {
    let head = "🤖 <b>aisudo approval needed</b>\n\n<b>App:</b> "@ + escaped_html(
        request.app_name@,
    ) + "\n<b>Action:</b> "@ + escaped_html(request.action_summary@) + "\n"@ + risk_marker(
        request.risk,
    ) + " <b>Risk:</b> "@ + request.risk.word() + "\n"@;
    let reasons = request.risk_reasons.deep_view();
    let with_reasons = if reasons.len() == 0 {
        head
    } else {
        head + "\n<b>Reasons:</b>\n"@ + reason_lines(reasons)
    };
    match recommendation_text(request.risk, request.recommendation) {
        Some(t) => with_reasons + "\n💡 <b>Recommendation:</b> "@ + t + "\n"@,
        None => with_reasons,
    }
}

/// The recommendation for a request, if its risk and recommended decision
/// call for one.
pub fn request_recommendation(request: &ApprovalRequest) -> (r: Option<&'static str>)
    ensures
        match r {
            Some(t) => recommendation_text(request.risk, request.recommendation) == Some(t@),
            None => recommendation_text(request.risk, request.recommendation) is None,
        },
{
    match (&request.risk, &request.recommendation) {
        (RiskLevel::Critical, Decision::Ask) => Some("high risk, require explicit approval"),
        (RiskLevel::High, Decision::Ask) => Some("elevated risk, review carefully"),
        _ => None,
    }
}

/// Format an approval request as a Telegram message
pub fn format_approval_message(request: &ApprovalRequest) -> (r: String)
    ensures
        r@ == approval_message(*request),
{
    let risk_emoji = match request.risk {
        RiskLevel::Low => "🟢",
        RiskLevel::Medium => "🟡",
        RiskLevel::High => "🟠",
        RiskLevel::Critical => "🔴",
    };
    let mut msg = String::from_str("🤖 <b>aisudo approval needed</b>\n\n<b>App:</b> ");
    let app = escape_html(request.app_name.as_str());
    msg.append(app.as_str());
    msg.append("\n<b>Action:</b> ");
    let summary = escape_html(request.action_summary.as_str());
    msg.append(summary.as_str());
    msg.append("\n");
    msg.append(risk_emoji);
    msg.append(" <b>Risk:</b> ");
    msg.append(request.risk.as_str());
    msg.append("\n");
    let ghost reasons = request.risk_reasons.deep_view();
    if request.risk_reasons.len() > 0 {
        msg.append("\n<b>Reasons:</b>\n");
        let ghost start = msg@;
        let mut i: usize = 0;
        while i < request.risk_reasons.len()
            invariant
                reasons == request.risk_reasons.deep_view(),
                i <= reasons.len(),
                msg@ == start + reason_lines(reasons.take(i as int)),
            decreases reasons.len() - i,
        {
            assert(reasons.take(i + 1).drop_last() =~= reasons.take(i as int));
            msg.append("• ");
            let line = escape_html(request.risk_reasons[i].as_str());
            msg.append(line.as_str());
            msg.append("\n");
            i = i + 1;
        }
        assert(reasons.take(reasons.len() as int) =~= reasons);
    }
    if let Some(recommendation) = request_recommendation(request) {
        msg.append("\n💡 <b>Recommendation:</b> ");
        msg.append(recommendation);
        msg.append("\n");
    }
    msg
}

// ─── Polled updates ─────────────────────────────────────────────────

/// The fields of a polled callback query that the daemon reads.
#[derive(Debug, Clone)]
pub struct RawCallback {
    /// `callback_query.data`
    pub data: Option<String>,
    /// `callback_query.message.message_id`
    pub message_id: Option<i64>,
}

/// The fields of a polled update that the daemon reads.
#[derive(Debug, Clone)]
pub struct RawUpdate {
    /// `update_id`
    pub update_id: Option<i64>,
    /// `callback_query`, where the update is one
    pub callback_query: Option<RawCallback>,
}

/// A callback update as plain values: data, message id, update id.
pub open spec fn callback_view(u: CallbackUpdate) -> (Seq<char>, i64, i64) {
    (u.callback_data@, u.message_id, u.update_id)
}

/// The callback update an update carries, if it is a callback query; a
/// missing field reads as empty text or zero.
pub open spec fn callback_of(u: RawUpdate) -> Option<(Seq<char>, i64, i64)> {
    match u.callback_query {
        Some(c) => Some(
            (
                match c.data {
                    Some(d) => d@,
                    None => Seq::empty(),
                },
                match c.message_id {
                    Some(m) => m,
                    None => 0,
                },
                match u.update_id {
                    Some(i) => i,
                    None => 0,
                },
            ),
        ),
        None => None,
    }
}

/// The callback updates among polled updates, in order.
pub open spec fn callbacks_of(updates: Seq<RawUpdate>) -> Seq<(Seq<char>, i64, i64)>
    decreases updates.len(),
{
    if updates.len() == 0 {
        Seq::empty()
    } else {
        let rest = callbacks_of(updates.drop_last());
        match callback_of(updates.last()) {
            Some(c) => rest.push(c),
            None => rest,
        }
    }
}

/// The offset after polling: the update id of the last callback query, or
/// the previous offset where there was none.
pub open spec fn offset_after(updates: Seq<RawUpdate>, offset: i64) -> i64 {
    let cs = callbacks_of(updates);
    if cs.len() == 0 {
        offset
    } else {
        cs.last().2
    }
}

/// Collect the callback queries among polled updates, and the offset to
/// keep for the next poll.
pub fn collect_callbacks(updates: &Vec<RawUpdate>, offset: i64) -> (r: (Vec<CallbackUpdate>, i64))
    ensures
        r.0@.map_values(|u: CallbackUpdate| callback_view(u)) == callbacks_of(updates@),
        r.1 == offset_after(updates@, offset),
{
    let mut found: Vec<CallbackUpdate> = Vec::new();
    let mut last = offset;
    let mut i: usize = 0;
    while i < updates.len()
        invariant
            i <= updates@.len(),
            found@.map_values(|u: CallbackUpdate| callback_view(u)) == callbacks_of(
                updates@.take(i as int),
            ),
            last == offset_after(updates@.take(i as int), offset),
        decreases updates@.len() - i,
    {
        assert(updates@.take(i + 1).drop_last() =~= updates@.take(i as int));
        let u = &updates[i];
        if let Some(c) = &u.callback_query {
            let callback_data = match &c.data {
                Some(d) => d.clone(),
                None => String::new(),
            };
            let message_id = match c.message_id {
                Some(m) => m,
                None => 0,
            };
            let update_id = match u.update_id {
                Some(x) => x,
                None => 0,
            };
            let ghost before = found@;
            found.push(CallbackUpdate { callback_data, message_id, update_id });
            assert(found@.map_values(|u: CallbackUpdate| callback_view(u)) =~= before.map_values(
                |u: CallbackUpdate| callback_view(u),
            ).push(callback_of(updates@[i as int])->0));
            last = update_id;
        }
        i = i + 1;
    }
    assert(updates@.take(updates@.len() as int) =~= updates@);
    (found, last)
}

/// The offset the next poll asks from: one past the last seen update.
pub fn next_poll_offset(offset: i64) -> (r: i64)
    requires
        offset < i64::MAX,
    ensures
        r == offset + 1,
{
    offset + 1
}

// ─── Laws ───────────────────────────────────────────────────────────

/// Text of which no character is `x`.
pub open spec fn free_of(s: Seq<char>, x: char) -> bool {
    forall|i: int| 0 <= i < s.len() ==> s[i] != x
}

/// Replacing `c` by a text free of `x` keeps a text free of `x`, and leaves
/// no `c` where the replacement has none.
proof fn lemma_replaced_free_of(s: Seq<char>, c: char, by: Seq<char>, x: char)
    requires
        free_of(by, x),
        x == c || free_of(s, x),
    ensures
        free_of(replaced(s, c, by), x),
    decreases s.len(),
{
    if s.len() > 0 {
        lemma_replaced_free_of(s.drop_last(), c, by, x);
        let head = replaced(s.drop_last(), c, by);
        let piece = if s.last() == c {
            by
        } else {
            seq![s.last()]
        };
        assert forall|i: int| 0 <= i < (head + piece).len() implies (head + piece)[i] != x by {
            if i >= head.len() {
                assert((head + piece)[i] == piece[i - head.len()]);
                if s.last() != c {
                    assert(s[s.len() - 1] != x);
                }
            }
        }
    }
}

/// Escaped text holds no `<` and no `>`: nothing in it can open or close an
/// HTML tag.
pub proof fn law_escaped_html_has_no_tags(s: Seq<char>)
    ensures
        free_of(escaped_html(s), '<'),
        free_of(escaped_html(s), '>'),
{
    reveal_strlit("&amp;");
    reveal_strlit("&lt;");
    reveal_strlit("&gt;");
    let a = replaced(s, '&', "&amp;"@);
    let b = replaced(a, '<', "&lt;"@);
    lemma_replaced_free_of(a, '<', "&lt;"@, '<');
    lemma_replaced_free_of(b, '>', "&gt;"@, '<');
    lemma_replaced_free_of(b, '>', "&gt;"@, '>');
}

/// The data of each button of the approval keyboard parses back to the
/// request it was made for and the action the button stands for.
pub proof fn law_button_roundtrip(request_id: Seq<char>, k: int)
    requires
        0 <= k < 4,
    ensures
        callback_decision(word_for(button_actions()[k]) + ":"@ + request_id) == Some(
            (request_id, button_actions()[k]),
        ),
{
    reveal_strlit("deny");
    reveal_strlit("approve_once");
    reveal_strlit("approve_10min");
    reveal_strlit("approve_always");
    reveal_strlit(":");
    let a = button_actions()[k];
    let w = word_for(a);
    let data = w + ":"@ + request_id;
    let i = w.len() as int;
    assert(data[i] == ':');
    assert forall|j: int| 0 <= j < i implies data[j] != ':' by {
        assert(data[j] == w[j]);
    }
    assert(first_colon(data, i));
    let c = choose|c: int| first_colon(data, c);
    lemma_first_colon_unique(data, i, c);
    assert(data.take(i) =~= w);
    assert(data.skip(i + 1) =~= request_id);
    assert("approve_once"@[8] != "approve_10min"@[8]);
    assert("approve_once"@.len() != "approve_always"@.len());
    assert("approve_10min"@[8] != "approve_always"@[8]);
}

/// The entity a character is escaped to, or the character itself.
pub open spec fn escaped_char(c: char) -> Seq<char> {
    if c == '&' {
        "&amp;"@
    } else if c == '<' {
        "&lt;"@
    } else if c == '>' {
        "&gt;"@
    } else {
        seq![c]
    }
}

/// Escaped text read back: `&amp;`, `&lt;` and `&gt;` become `&`, `<` and
/// `>`, from left to right; every other character stays.
pub open spec fn html_unescaped(t: Seq<char>) -> Seq<char>
    decreases t.len(),
{
    if t.len() == 0 {
        Seq::empty()
    } else if t.len() >= 5 && has_prefix(t, "&amp;"@) {
        seq!['&'] + html_unescaped(t.skip(5))
    } else if t.len() >= 4 && has_prefix(t, "&lt;"@) {
        seq!['<'] + html_unescaped(t.skip(4))
    } else if t.len() >= 4 && has_prefix(t, "&gt;"@) {
        seq!['>'] + html_unescaped(t.skip(4))
    } else {
        seq![t[0]] + html_unescaped(t.skip(1))
    }
}

/// Replacing in a concatenation replaces in each part.
proof fn lemma_replaced_concat(a: Seq<char>, b: Seq<char>, c: char, by: Seq<char>)
    ensures
        replaced(a + b, c, by) == replaced(a, c, by) + replaced(b, c, by),
    decreases b.len(),
{
    if b.len() == 0 {
        assert(a + b =~= a);
        assert(replaced(a, c, by) + replaced(b, c, by) =~= replaced(a, c, by));
    } else {
        lemma_replaced_concat(a, b.drop_last(), c, by);
        assert((a + b).drop_last() =~= a + b.drop_last());
        assert((a + b).last() == b.last());
        let piece = if b.last() == c {
            by
        } else {
            seq![b.last()]
        };
        assert(replaced(a, c, by) + replaced(b.drop_last(), c, by) + piece =~= replaced(a, c, by) + (
        replaced(b.drop_last(), c, by) + piece));
    }
}

/// Replacing in a single character.
proof fn lemma_replaced_one(x: char, c: char, by: Seq<char>)
    ensures
        replaced(seq![x], c, by) == (if x == c {
            by
        } else {
            seq![x]
        }),
{
    assert(seq![x].drop_last() =~= Seq::<char>::empty());
    assert(seq![x].last() == x);
    assert(replaced(Seq::<char>::empty(), c, by) == Seq::<char>::empty());
    assert(Seq::<char>::empty() + by =~= by);
    assert(Seq::<char>::empty() + seq![x] =~= seq![x]);
}

/// Replacing a character that does not occur changes nothing.
proof fn lemma_replaced_absent(t: Seq<char>, c: char, by: Seq<char>)
    requires
        free_of(t, c),
    ensures
        replaced(t, c, by) == t,
    decreases t.len(),
{
    if t.len() > 0 {
        lemma_replaced_absent(t.drop_last(), c, by);
        assert(t.last() == t[t.len() - 1]);
        assert(t.drop_last() + seq![t.last()] =~= t);
    }
}

/// Escaping a single character gives its entity.
proof fn lemma_escaped_one(x: char)
    ensures
        escaped_html(seq![x]) == escaped_char(x),
{
    reveal_strlit("&amp;");
    reveal_strlit("&lt;");
    reveal_strlit("&gt;");
    lemma_replaced_one(x, '&', "&amp;"@);
    let a = replaced(seq![x], '&', "&amp;"@);
    if x == '&' {
        lemma_replaced_absent(a, '<', "&lt;"@);
        lemma_replaced_absent(a, '>', "&gt;"@);
    } else {
        lemma_replaced_one(x, '<', "&lt;"@);
        let b = replaced(a, '<', "&lt;"@);
        if x == '<' {
            lemma_replaced_absent(b, '>', "&gt;"@);
        } else {
            lemma_replaced_one(x, '>', "&gt;"@);
        }
    }
}

/// Escaping text escapes each character in turn.
proof fn lemma_escaped_concat(a: Seq<char>, b: Seq<char>)
    ensures
        escaped_html(a + b) == escaped_html(a) + escaped_html(b),
{
    lemma_replaced_concat(a, b, '&', "&amp;"@);
    let a1 = replaced(a, '&', "&amp;"@);
    let b1 = replaced(b, '&', "&amp;"@);
    lemma_replaced_concat(a1, b1, '<', "&lt;"@);
    let a2 = replaced(a1, '<', "&lt;"@);
    let b2 = replaced(b1, '<', "&lt;"@);
    lemma_replaced_concat(a2, b2, '>', "&gt;"@);
}

/// Reading back an entity followed by more text gives the character
/// followed by the reading of the rest.
proof fn lemma_unescape_step(c: char, t: Seq<char>)
    ensures
        html_unescaped(escaped_char(c) + t) == seq![c] + html_unescaped(t),
{
    reveal_strlit("&amp;");
    reveal_strlit("&lt;");
    reveal_strlit("&gt;");
    let e = escaped_char(c);
    let u = e + t;
    if c == '&' {
        assert(u.take(5) =~= "&amp;"@);
        assert(u.skip(5) =~= t);
    } else if c == '<' {
        assert(u[1] == 'l');
        assert(!has_prefix(u, "&amp;"@)) by {
            if has_prefix(u, "&amp;"@) {
                assert(u.take(5)[1] == 'a');
            }
        }
        assert(u.take(4) =~= "&lt;"@);
        assert(u.skip(4) =~= t);
    } else if c == '>' {
        assert(u[1] == 'g');
        assert(!has_prefix(u, "&amp;"@)) by {
            if has_prefix(u, "&amp;"@) {
                assert(u.take(5)[1] == 'a');
            }
        }
        assert(!has_prefix(u, "&lt;"@)) by {
            if has_prefix(u, "&lt;"@) {
                assert(u.take(4)[1] == 'l');
            }
        }
        assert(u.take(4) =~= "&gt;"@);
        assert(u.skip(4) =~= t);
    } else {
        assert(u[0] == c);
        assert(!has_prefix(u, "&amp;"@)) by {
            if has_prefix(u, "&amp;"@) {
                assert(u.take(5)[0] == '&');
            }
        }
        assert(!has_prefix(u, "&lt;"@)) by {
            if has_prefix(u, "&lt;"@) {
                assert(u.take(4)[0] == '&');
            }
        }
        assert(!has_prefix(u, "&gt;"@)) by {
            if has_prefix(u, "&gt;"@) {
                assert(u.take(4)[0] == '&');
            }
        }
        assert(u.skip(1) =~= t);
    }
}

/// Reading escaped text back gives the text that was escaped.
pub proof fn law_unescape_restores(s: Seq<char>)
    ensures
        html_unescaped(escaped_html(s)) == s,
    decreases s.len(),
{
    if s.len() == 0 {
        assert(escaped_html(s) =~= Seq::<char>::empty()) by {
            assert(replaced(s, '&', "&amp;"@) =~= Seq::<char>::empty());
            assert(replaced(Seq::<char>::empty(), '<', "&lt;"@) =~= Seq::<char>::empty());
        }
    } else {
        let rest = s.drop_first();
        assert(s =~= seq![s[0]] + rest);
        lemma_escaped_concat(seq![s[0]], rest);
        lemma_escaped_one(s[0]);
        lemma_unescape_step(s[0], escaped_html(rest));
        law_unescape_restores(rest);
        assert(seq![s[0]] + rest =~= s);
    }
}

/// The recommendation shown for each risk and recommended decision: asking
/// at critical risk calls for explicit approval, asking at high risk for a
/// careful review, and nothing else carries one.
pub proof fn law_recommendations(risk: RiskLevel, decision: Decision)
    ensures
        recommendation_text(risk, decision) == (if decision == Decision::Ask && risk
            == RiskLevel::Critical {
            Some("high risk, require explicit approval"@)
        } else if decision == Decision::Ask && risk == RiskLevel::High {
            Some("elevated risk, review carefully"@)
        } else {
            None::<Seq<char>>
        }),
{
}

/// An approval message for an action recommended for asking at critical
/// risk ends with the recommendation to require explicit approval, and at
/// high risk with the recommendation to review carefully.
pub proof fn law_recommendation_closes_message(request: ApprovalRequest)
    requires
        request.recommendation == Decision::Ask,
        request.risk == RiskLevel::Critical || request.risk == RiskLevel::High,
    ensures
        request.risk == RiskLevel::Critical ==> has_suffix(
            approval_message(request),
            "\n💡 <b>Recommendation:</b> high risk, require explicit approval\n"@,
        ),
        request.risk == RiskLevel::High ==> has_suffix(
            approval_message(request),
            "\n💡 <b>Recommendation:</b> elevated risk, review carefully\n"@,
        ),
{
    reveal_strlit("\n💡 <b>Recommendation:</b> ");
    reveal_strlit("\n");
    reveal_strlit("high risk, require explicit approval");
    reveal_strlit("elevated risk, review carefully");
    reveal_strlit("\n💡 <b>Recommendation:</b> high risk, require explicit approval\n");
    reveal_strlit("\n💡 <b>Recommendation:</b> elevated risk, review carefully\n");
    let m = approval_message(request);
    let t = recommendation_text(request.risk, request.recommendation)->0;
    let tail = "\n💡 <b>Recommendation:</b> "@ + t + "\n"@;
    let reasons = request.risk_reasons.deep_view();
    let head = "🤖 <b>aisudo approval needed</b>\n\n<b>App:</b> "@ + escaped_html(
        request.app_name@,
    ) + "\n<b>Action:</b> "@ + escaped_html(request.action_summary@) + "\n"@ + risk_marker(
        request.risk,
    ) + " <b>Risk:</b> "@ + request.risk.word() + "\n"@;
    let with_reasons = if reasons.len() == 0 {
        head
    } else {
        head + "\n<b>Reasons:</b>\n"@ + reason_lines(reasons)
    };
    assert(m == with_reasons + tail);
    assert((with_reasons + tail).skip(with_reasons.len() as int) =~= tail);
    if request.risk == RiskLevel::Critical {
        assert(tail =~= "\n💡 <b>Recommendation:</b> high risk, require explicit approval\n"@);
    } else {
        assert(tail =~= "\n💡 <b>Recommendation:</b> elevated risk, review carefully\n"@);
    }
}

} // verus!
