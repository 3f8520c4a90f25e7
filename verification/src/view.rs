//! View composer: a pure function of the interaction state and the supplied
//! chat content that decides each region's decoration and visible text.

use vstd::prelude::*;

use crate::state::App;
use crate::state::AppMode;
use crate::state::FocusTarget;

verus! {

/// Width share of the Channels pane, in percent of the screen width.
pub const CHANNELS_WIDTH_PERCENT: u16 = 25;

/// Width share of the Messages and Input column, in percent of the screen width.
pub const MAIN_WIDTH_PERCENT: u16 = 75;

/// Height share of the Messages pane, in percent of its column.
pub const MESSAGES_HEIGHT_PERCENT: u16 = 95;

/// Height share of the Input pane, in percent of its column.
pub const INPUT_HEIGHT_PERCENT: u16 = 5;

/// The decimal digit character for `d`, for `0 <= d < 10`.
pub open spec fn spec_digit_char(d: int) -> char {
    if d == 0 {
        '0'
    } else if d == 1 {
        '1'
    } else if d == 2 {
        '2'
    } else if d == 3 {
        '3'
    } else if d == 4 {
        '4'
    } else if d == 5 {
        '5'
    } else if d == 6 {
        '6'
    } else if d == 7 {
        '7'
    } else if d == 8 {
        '8'
    } else {
        '9'
    }
}

/// The decimal numeral of `n`, most significant digit first, without leading
/// zeros (the numeral of zero is the single digit `0`).
pub open spec fn spec_decimal(n: int) -> Seq<char>
    recommends
        n >= 0,
    decreases n,
{
    if n < 10 {
        seq![spec_digit_char(n)]
    } else {
        spec_decimal(n / 10).push(spec_digit_char(n % 10))
    }
}

fn digit_str(d: u64) -> (r: &'static str)
    requires
        d < 10,
    ensures
        r@ =~= seq![spec_digit_char(d as int)],
{
    proof {
        reveal_strlit("0");
        reveal_strlit("1");
        reveal_strlit("2");
        reveal_strlit("3");
        reveal_strlit("4");
        reveal_strlit("5");
        reveal_strlit("6");
        reveal_strlit("7");
        reveal_strlit("8");
        reveal_strlit("9");
    }
    if d == 0 {
        "0"
    } else if d == 1 {
        "1"
    } else if d == 2 {
        "2"
    } else if d == 3 {
        "3"
    } else if d == 4 {
        "4"
    } else if d == 5 {
        "5"
    } else if d == 6 {
        "6"
    } else if d == 7 {
        "7"
    } else if d == 8 {
        "8"
    } else {
        "9"
    }
}

/// Append the decimal numeral of `n` to `out`.
pub fn append_decimal(out: &mut String, n: u64)
    ensures
        final(out)@ == old(out)@ + spec_decimal(n as int),
    decreases n,
{
    if n < 10 {
        out.append(digit_str(n));
        assert(out@ =~= old(out)@ + spec_decimal(n as int));
    } else {
        append_decimal(out, n / 10);
        out.append(digit_str(n % 10));
        assert(spec_decimal(n as int) == spec_decimal(n as int / 10).push(
            spec_digit_char(n as int % 10),
        ));
        assert(out@ =~= old(out)@ + spec_decimal(n as int));
    }
}

/// The decimal numeral of `n` as a fresh string.
pub fn u64_to_decimal(n: u64) -> (r: String)
    ensures
        r@ == spec_decimal(n as int),
{
    let mut s = String::new();
    append_decimal(&mut s, n);
    proof {
        assert(s@ =~= spec_decimal(n as int));
    }
    s
}

/// One chat message record, as supplied by the session collaborator.
#[derive(Clone, Debug, PartialEq, Eq)]
pub struct MessageEntry {
    pub timestamp: String,
    pub author: String,
    pub text: String,
}

/// Mathematical model of a message record.
#[verifier::ext_equal]
pub struct MessageEntryView {
    pub timestamp: Seq<char>,
    pub author: Seq<char>,
    pub text: Seq<char>,
}

impl View for MessageEntry {
    type V = MessageEntryView;

    open spec fn view(&self) -> MessageEntryView {
        MessageEntryView { timestamp: self.timestamp@, author: self.author@, text: self.text@ }
    }
}

/// Read-only content for one render cycle: the channel list summary, the
/// authenticated user's handle, and the ordered message records.
#[derive(Clone, Debug, PartialEq, Eq)]
pub struct ChatContent {
    pub channel_count: u64,
    pub channel_name: String,
    pub nickname: String,
    pub messages: Vec<MessageEntry>,
}

/// Mathematical model of the render-cycle content.
#[verifier::ext_equal]
pub struct ChatContentView {
    pub channel_count: u64,
    pub channel_name: Seq<char>,
    pub nickname: Seq<char>,
    pub messages: Seq<MessageEntryView>,
}

impl View for ChatContent {
    type V = ChatContentView;

    open spec fn view(&self) -> ChatContentView {
        ChatContentView {
            channel_count: self.channel_count,
            channel_name: self.channel_name@,
            nickname: self.nickname@,
            messages: self.messages@.map_values(|m: MessageEntry| m@),
        }
    }
}

/// Decoration descriptor for one region: border emphasis, title emphasis,
/// the title to show, and the visible body text.
#[derive(Clone, Debug, PartialEq, Eq)]
pub struct RegionSpec {
    pub border_emphasis: bool,
    pub title_emphasis: bool,
    pub title: String,
    pub visible_text: String,
}

/// Mathematical model of a region descriptor.
#[verifier::ext_equal]
pub struct RegionSpecView {
    pub border_emphasis: bool,
    pub title_emphasis: bool,
    pub title: Seq<char>,
    pub visible_text: Seq<char>,
}

impl View for RegionSpec {
    type V = RegionSpecView;

    open spec fn view(&self) -> RegionSpecView {
        RegionSpecView {
            border_emphasis: self.border_emphasis,
            title_emphasis: self.title_emphasis,
            title: self.title@,
            visible_text: self.visible_text@,
        }
    }
}

/// The three region descriptors of one composed screen.
#[derive(Clone, Debug, PartialEq, Eq)]
pub struct RegionSpecs {
    pub channels: RegionSpec,
    pub messages: RegionSpec,
    pub input: RegionSpec,
}

/// Mathematical model of a composed screen.
#[verifier::ext_equal]
pub struct RegionSpecsView {
    pub channels: RegionSpecView,
    pub messages: RegionSpecView,
    pub input: RegionSpecView,
}

impl View for RegionSpecs {
    type V = RegionSpecsView;

    open spec fn view(&self) -> RegionSpecsView {
        RegionSpecsView { channels: self.channels@, messages: self.messages@, input: self.input@ }
    }
}

/// The Channels border (and title) is emphasized exactly when the client is
/// in `Normal` mode with focus on the channel list.
pub open spec fn spec_channels_emphasis(s: App) -> bool {
    s.mode is Normal && s.focus is Channels
}

/// The Messages border (and title) is emphasized exactly when the client is
/// in `Normal` mode with focus on the message view.
pub open spec fn spec_messages_emphasis(s: App) -> bool {
    s.mode is Normal && s.focus is Messages
}

/// The Input border is emphasized in `Insert` mode — whatever pane holds
/// focus — and otherwise exactly when `Normal`-mode focus is on the input
/// field.
pub open spec fn spec_input_emphasis(s: App) -> bool {
    s.mode is Insert || (s.mode is Normal && s.focus is Input)
}

/// The Channels title: the channel count in brackets.
pub open spec fn spec_channels_title(count: u64) -> Seq<char> {
    "[ Channels: "@ + spec_decimal(count as int) + " ]"@
}

/// The Messages title: the user's handle, bracket-decorated.
pub open spec fn spec_messages_title(nickname: Seq<char>) -> Seq<char> {
    "[ "@ + nickname + " ]"@
}

/// One rendered message line: timestamp, author, text.
pub open spec fn spec_message_line(m: MessageEntryView) -> Seq<char> {
    m.timestamp + " "@ + m.author + ": "@ + m.text
}

/// The rendered message lines, in order, separated by newlines.
pub open spec fn spec_lines_joined(ms: Seq<MessageEntryView>) -> Seq<char>
    decreases ms.len(),
{
    if ms.len() == 0 {
        Seq::empty()
    } else if ms.len() == 1 {
        spec_message_line(ms[0])
    } else {
        spec_lines_joined(ms.drop_last()) + "\n"@ + spec_message_line(ms.last())
    }
}

/// The Messages body: the joined message lines, or a single placeholder line
/// when there are no messages.
pub open spec fn spec_messages_body(ms: Seq<MessageEntryView>) -> Seq<char> {
    if ms.len() == 0 {
        "No messages yet."@
    } else {
        spec_lines_joined(ms)
    }
}

/// The Input body: empty in `Insert` mode, so the real buffer shows through;
/// the literal placeholder otherwise.
pub open spec fn spec_input_text(s: App) -> Seq<char> {
    if s.mode is Insert {
        Seq::empty()
    } else {
        "Enter your message..."@
    }
}

/// The Channels title as a fresh string.
pub fn channels_title(count: u64) -> (r: String)
    ensures
        r@ == spec_channels_title(count),
{
    let mut s = String::from_str("[ Channels: ");
    append_decimal(&mut s, count);
    s.append(" ]");
    proof {
        assert(s@ =~= spec_channels_title(count));
    }
    s
}

/// The Messages title as a fresh string.
pub fn messages_title(nickname: &String) -> (r: String)
    ensures
        r@ == spec_messages_title(nickname@),
{
    let mut s = String::from_str("[ ");
    s.append(nickname.as_str());
    s.append(" ]");
    proof {
        assert(s@ =~= spec_messages_title(nickname@));
    }
    s
}

/// One rendered message line as a fresh string.
pub fn message_line(m: &MessageEntry) -> (r: String)
    ensures
        r@ == spec_message_line(m@),
{
    let mut s = String::from_str("");
    s.append(m.timestamp.as_str());
    s.append(" ");
    s.append(m.author.as_str());
    s.append(": ");
    s.append(m.text.as_str());
    proof {
        reveal_strlit("");
        assert(s@ =~= spec_message_line(m@));
    }
    s
}

/// The Messages body as a fresh string.
pub fn messages_body(ms: &Vec<MessageEntry>) -> (r: String)
    ensures
        r@ == spec_messages_body(ms@.map_values(|m: MessageEntry| m@)),
{
    let ghost v = ms@.map_values(|m: MessageEntry| m@);
    if ms.len() == 0 {
        return String::from_str("No messages yet.");
    }
    let mut s = message_line(&ms[0]);
    proof {
        assert(v.take(1).len() == 1);
        assert(v.take(1)[0] == v[0]);
        assert(s@ == spec_lines_joined(v.take(1)));
    }
    let mut i: usize = 1;
    while i < ms.len()
        invariant
            v == ms@.map_values(|m: MessageEntry| m@),
            1 <= i <= ms@.len(),
            s@ == spec_lines_joined(v.take(i as int)),
        decreases ms@.len() - i,
    {
        s.append("\n");
        let line = message_line(&ms[i]);
        s.append(line.as_str());
        proof {
            let t = v.take(i as int + 1);
            assert(t.drop_last() =~= v.take(i as int));
            assert(t.last() == v[i as int]);
            assert(spec_lines_joined(t) == spec_lines_joined(t.drop_last()) + "\n"@
                + spec_message_line(t.last()));
            assert(s@ =~= spec_lines_joined(v.take(i as int + 1)));
        }
        i += 1;
    }
    proof {
        assert(v.take(ms@.len() as int) =~= v);
    }
    s
}

/// The Input placeholder text as a fresh string: empty in `Insert` mode, the
/// literal placeholder otherwise.
pub fn input_text(s: &App) -> (r: String)
    ensures
        r@ == spec_input_text(*s),
{
    match s.mode {
        AppMode::Insert => String::new(),
        AppMode::Normal => String::from_str("Enter your message..."),
    }
}

/// What the composer produces for a state and content: each region's
/// emphasis flags, title and body, by the per-region rules above.
pub open spec fn spec_compose(s: App, c: ChatContentView) -> RegionSpecsView {
    RegionSpecsView {
        channels: RegionSpecView {
            border_emphasis: spec_channels_emphasis(s),
            title_emphasis: spec_channels_emphasis(s),
            title: spec_channels_title(c.channel_count),
            visible_text: c.channel_name,
        },
        messages: RegionSpecView {
            border_emphasis: spec_messages_emphasis(s),
            title_emphasis: spec_messages_emphasis(s),
            title: spec_messages_title(c.nickname),
            visible_text: spec_messages_body(c.messages),
        },
        input: RegionSpecView {
            border_emphasis: spec_input_emphasis(s),
            title_emphasis: spec_input_emphasis(s),
            title: Seq::empty(),
            visible_text: spec_input_text(s),
        },
    }
}

impl App {
    /// The view composer: a pure function of the interaction state and the
    /// supplied content, producing the three region descriptors. Calling it
    /// twice on equal inputs gives equal descriptors.
    pub fn compose(&self, content: &ChatContent) -> (r: RegionSpecs)
        ensures
            r@ == spec_compose(*self, content@),
    {
        let channels_on = matches!(self.mode, AppMode::Normal) && matches!(
            self.focus,
            FocusTarget::Channels,
        );
        let messages_on = matches!(self.mode, AppMode::Normal) && matches!(
            self.focus,
            FocusTarget::Messages,
        );
        let input_on = matches!(self.mode, AppMode::Insert) || (matches!(self.mode, AppMode::Normal)
            && matches!(self.focus, FocusTarget::Input));
        let r = RegionSpecs {
            channels: RegionSpec {
                border_emphasis: channels_on,
                title_emphasis: channels_on,
                title: channels_title(content.channel_count),
                visible_text: content.channel_name.clone(),
            },
            messages: RegionSpec {
                border_emphasis: messages_on,
                title_emphasis: messages_on,
                title: messages_title(&content.nickname),
                visible_text: messages_body(&content.messages),
            },
            input: RegionSpec {
                border_emphasis: input_on,
                title_emphasis: input_on,
                title: String::new(),
                visible_text: input_text(self),
            },
        };
        proof {
            assert(r@ =~~= spec_compose(*self, content@));
        }
        r
    }
}

/// Input-emphasis override: in `Insert` mode the Input region's border is
/// emphasized whatever pane holds focus — in particular with focus on the
/// channel list.
pub proof fn lemma_insert_emphasizes_input(s: App, c: ChatContentView)
    requires
        s.mode is Insert,
    ensures
        spec_compose(s, c).input.border_emphasis,
{
}

} // verus!
