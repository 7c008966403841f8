//! The terminal formatter: one event in, one line of text out.
//!
//! Errors and warnings get a padded label and, on a terminal that takes
//! colours, red or yellow. Informational events are their message and
//! nothing else. Debug and trace events start with the local time, the
//! level and the target. Fields other than the message are never shown.

use vstd::prelude::*;
use vstd::string::StringExecFns;

use crate::clock::{is_timestamp, local_timestamp};
use crate::color::{
    has_escape, lemma_escape_in_concat, lemma_visible_after_plain, lemma_visible_of_painted, paint,
    painted, visible, Background, Foreground,
};
use crate::event::{message_field, Event, EventModel, Field, FieldModel};
use crate::level::Level;

verus! {

/// What one field adds to a line: its value if it is the message, in the
/// given colour if there is one, and nothing otherwise.
pub open spec fn rendered_field(field: FieldModel, tint: Option<Foreground>) -> Seq<char> {
    if field.name == message_field() {
        match tint {
            Some(fg) => painted(fg, Background::Default, field.value),
            None => field.value,
        }
    } else {
        Seq::empty()
    }
}

/// What the fields of an event add to a line, in their order.
pub open spec fn rendered_message(fields: Seq<FieldModel>, tint: Option<Foreground>) -> Seq<char>
    decreases fields.len(),
{
    if fields.len() == 0 {
        Seq::empty()
    } else {
        rendered_message(fields.drop_last(), tint) + rendered_field(fields.last(), tint)
    }
}

/// A label followed by one space; with `colorize`, the label is painted.
pub open spec fn rendered_label(
    colorize: bool,
    fg: Foreground,
    bg: Background,
    label: Seq<char>,
) -> Seq<char> {
    (if colorize {
        painted(fg, bg, label)
    } else {
        label
    }) + seq![' ']
}

/// The message of an event and the newline that ends its line.
pub open spec fn message_line(fields: Seq<FieldModel>, tint: Option<Foreground>) -> Seq<char> {
    rendered_message(fields, tint) + seq!['\n']
}

/// The padded label of an error or a warning.
pub open spec fn label_of(level: Level) -> Seq<char> {
    if level == Level::Error {
        " ERROR "@
    } else {
        " WARNING "@
    }
}

/// The colour of an error or a warning.
pub open spec fn tint_of(level: Level) -> Foreground {
    if level == Level::Error {
        Foreground::Red
    } else {
        Foreground::Yellow
    }
}

/// What precedes the message on a debug or trace line.
pub open spec fn line_prefix(timestamp: Seq<char>, level: Level, target: Seq<char>) -> Seq<char> {
    timestamp + seq![' ', '['] + level.spec_name() + seq![']', ' '] + target + seq![':', ' ']
}

/// The line that the terminal shows for an event.
pub open spec fn terminal_line(is_ansi: bool, event: EventModel, timestamp: Seq<char>) -> Seq<
    char,
> {
    match event.level {
        Level::Error | Level::Warn => rendered_label(
            is_ansi,
            tint_of(event.level),
            Background::Black,
            label_of(event.level),
        ) + message_line(
            event.fields,
            if is_ansi {
                Some(tint_of(event.level))
            } else {
                None
            },
        ),
        Level::Info => message_line(event.fields, None),
        Level::Debug | Level::Trace => line_prefix(timestamp, event.level, event.target)
            + message_line(event.fields, None),
    }
}

/// The line that a log file gets for an event: the layout of a debug line,
/// at every level, never painted.
pub open spec fn plain_line(event: EventModel, timestamp: Seq<char>) -> Seq<char> {
    line_prefix(timestamp, event.level, event.target) + message_line(event.fields, None)
}

/// Whether the line of an event of this level starts with the time.
pub open spec fn needs_timestamp(level: Level) -> bool {
    level == Level::Debug || level == Level::Trace
}

/// Appends `value` and a space to `out`; with `colorize`, `value` is painted.
pub fn write_string(out: &mut String, colorize: bool, fg: Foreground, bg: Background, value: &str)
    ensures
        final(out)@ == old(out)@ + rendered_label(colorize, fg, bg, value@),
{
    if colorize {
        let value = paint(fg, bg, value);
        out.append(value.as_str());
    } else {
        out.append(value);
    }
    proof {
        reveal_strlit(" ");
    }
    out.append(" ");
    assert(out@ =~= old(out)@ + rendered_label(colorize, fg, bg, value@));
}

/// Appends what `field` adds to a line: its value, if it is the message.
pub fn record_debug(out: &mut String, tint: Option<Foreground>, field: &Field)
    ensures
        final(out)@ == old(out)@ + rendered_field(field@, tint),
{
    let name = String::from_str("message");
    if field.name == name {
        match tint {
            Some(fg) => {
                let value = paint(fg, Background::Default, field.value.as_str());
                out.append(value.as_str());
            },
            None => {
                out.append(field.value.as_str());
            },
        }
    } else {
        assert(out@ =~= old(out)@ + Seq::<char>::empty());
    }
}

/// Appends the message of `event` and a newline.
pub fn write_message(out: &mut String, tint: Option<Foreground>, event: &Event)
    ensures
        final(out)@ == old(out)@ + message_line(event@.fields, tint),
{
    let ghost fields = event@.fields;
    let mut i: usize = 0;
    assert(fields.take(0) =~= Seq::<FieldModel>::empty());
    assert(out@ =~= old(out)@ + rendered_message(fields.take(0), tint));
    while i < event.fields.len()
        invariant
            i <= event.fields.len(),
            fields == event@.fields,
            out@ == old(out)@ + rendered_message(fields.take(i as int), tint),
        decreases event.fields.len() - i,
    {
        let ghost before = out@;
        record_debug(out, tint, &event.fields[i]);
        proof {
            let next = fields.take(i + 1);
            assert(next.drop_last() =~= fields.take(i as int));
            assert(next.last() == event.fields@[i as int]@);
            assert(out@ =~= old(out)@ + rendered_message(next, tint));
        }
        i += 1;
    }
    assert(fields.take(i as int) =~= fields);
    proof {
        reveal_strlit("\n");
    }
    out.append("\n");
    assert(out@ =~= old(out)@ + message_line(fields, tint));
}

/// Appends what precedes the message on a debug or trace line.
pub fn write_prefix(out: &mut String, timestamp: &str, level: Level, target: &str)
    ensures
        final(out)@ == old(out)@ + line_prefix(timestamp@, level, target@),
{
    proof {
        reveal_strlit(" [");
        reveal_strlit("] ");
        reveal_strlit(": ");
    }
    out.append(timestamp);
    out.append(" [");
    out.append(level.name());
    out.append("] ");
    out.append(target);
    out.append(": ");
    assert(out@ =~= old(out)@ + line_prefix(timestamp@, level, target@));
}

/// Appends the line that a log file gets for `event`.
pub fn format_plain(out: &mut String, event: &Event, timestamp: &str)
    ensures
        final(out)@ == old(out)@ + plain_line(event@, timestamp@),
{
    write_prefix(out, timestamp, event.level, event.target.as_str());
    write_message(out, None, event);
    assert(out@ =~= old(out)@ + plain_line(event@, timestamp@));
}

/// The terminal formatter. All it remembers is whether the terminal takes
/// colours.
#[derive(Clone, Copy, Debug, PartialEq, Eq)]
pub struct TurboFormatter {
    is_ansi: bool,
}

impl TurboFormatter {
    pub closed spec fn spec_is_ansi(&self) -> bool {
        self.is_ansi
    }

    pub fn new_with_ansi(is_ansi: bool) -> (r: TurboFormatter)
        ensures
            r.is_ansi() == is_ansi,
    {
        TurboFormatter { is_ansi }
    }

    #[verifier::when_used_as_spec(spec_is_ansi)]
    pub fn is_ansi(&self) -> (r: bool)
        ensures
            r == self.is_ansi(),
    {
        self.is_ansi
    }

    /// Appends the line of `event` to `out`. `timestamp` is the local time
    /// as text; only debug and trace lines show it.
    pub fn format_event(&self, out: &mut String, event: &Event, timestamp: &str)
        ensures
            final(out)@ == old(out)@ + terminal_line(self.is_ansi(), event@, timestamp@),
    {
        match event.level {
            Level::Error => {
                write_string(out, self.is_ansi, Foreground::Red, Background::Black, " ERROR ");
                let tint = if self.is_ansi {
                    Some(Foreground::Red)
                } else {
                    None
                };
                write_message(out, tint, event);
            },
            Level::Warn => {
                write_string(out, self.is_ansi, Foreground::Yellow, Background::Black, " WARNING ");
                let tint = if self.is_ansi {
                    Some(Foreground::Yellow)
                } else {
                    None
                };
                write_message(out, tint, event);
            },
            Level::Info => {
                write_message(out, None, event);
            },
            _ => {
                write_prefix(out, timestamp, event.level, event.target.as_str());
                write_message(out, None, event);
            },
        }
        assert(out@ =~= old(out)@ + terminal_line(self.is_ansi(), event@, timestamp@));
    }

    /// Appends the line of `event` to `out`, reading the clock where the
    /// line shows the time. For an error, a warning or an informational
    /// event the clock is not read and the line is the same whatever the
    /// time.
    pub fn format_event_now(&self, out: &mut String, event: &Event)
        ensures
            exists|timestamp: Seq<char>|
                (needs_timestamp(event.level) ==> is_timestamp(timestamp)) && final(out)@ == old(
                    out,
                )@ + #[trigger] terminal_line(self.is_ansi(), event@, timestamp),
            !needs_timestamp(event.level) ==> final(out)@ == old(out)@ + terminal_line(
                self.is_ansi(),
                event@,
                Seq::empty(),
            ),
    {
        match event.level {
            Level::Debug | Level::Trace => {
                let now = local_timestamp();
                self.format_event(out, event, now.as_str());
            },
            _ => {
                proof {
                    reveal_strlit("");
                }
                self.format_event(out, event, "");
                assert(""@ =~= Seq::<char>::empty());
            },
        }
    }
}

/// Fields that are not the message add nothing, and an unpainted message is
/// added as it is: the rendered message of a list that ends in `field` is
/// that of the list before it, followed by the field's value if it is the
/// message.
pub proof fn lemma_rendered_message_push(
    fields: Seq<FieldModel>,
    field: FieldModel,
    tint: Option<Foreground>,
)
    ensures
        rendered_message(fields.push(field), tint) == rendered_message(fields, tint)
            + rendered_field(field, tint),
        field.name != message_field() ==> rendered_message(fields.push(field), tint)
            == rendered_message(fields, tint),
{
    assert(fields.push(field).drop_last() =~= fields);
    assert(rendered_message(fields, tint) + Seq::<char>::empty() =~= rendered_message(
        fields,
        tint,
    ));
}

/// The rendered message of an event whose only field is its message is
/// that message, painted where a colour is given.
pub proof fn lemma_rendered_single_message(message: Seq<char>, tint: Option<Foreground>)
    ensures
        rendered_message(seq![FieldModel { name: message_field(), value: message }], tint) == (
        match tint {
            Some(fg) => painted(fg, Background::Default, message),
            None => message,
        }),
{
    let field = FieldModel { name: message_field(), value: message };
    let fields = seq![field];
    assert(fields.drop_last() =~= Seq::<FieldModel>::empty());
    assert(rendered_message(fields.drop_last(), tint) =~= Seq::<char>::empty());
    assert(rendered_message(fields, tint) =~= rendered_field(field, tint));
}

/// The layout of a line without colours, for an event whose only field is
/// its message: an error is ` ERROR `, a space, the message; a warning is
/// the same with ` WARNING `; an informational event is the message alone,
/// with or without colours; a debug or trace event is the time, the level
/// between brackets, the target, a colon and the message. A newline ends
/// each.
pub proof fn lemma_layout_of_message(
    is_ansi: bool,
    level: Level,
    target: Seq<char>,
    message: Seq<char>,
    timestamp: Seq<char>,
)
    ensures
        ({
            let event = EventModel {
                level,
                target,
                fields: seq![FieldModel { name: message_field(), value: message }],
            };
            &&& level == Level::Error ==> terminal_line(false, event, timestamp) == " ERROR "@
                + seq![' '] + message + seq!['\n']
            &&& level == Level::Warn ==> terminal_line(false, event, timestamp) == " WARNING "@
                + seq![' '] + message + seq!['\n']
            &&& level == Level::Info ==> terminal_line(is_ansi, event, timestamp) == message
                + seq!['\n']
            &&& needs_timestamp(level) ==> terminal_line(is_ansi, event, timestamp) == timestamp
                + seq![' ', '['] + level.spec_name() + seq![']', ' '] + target + seq![':', ' ']
                + message + seq!['\n']
            &&& plain_line(event, timestamp) == timestamp + seq![' ', '['] + level.spec_name()
                + seq![']', ' '] + target + seq![':', ' '] + message + seq!['\n']
        }),
{
    let event = EventModel {
        level,
        target,
        fields: seq![FieldModel { name: message_field(), value: message }],
    };
    lemma_rendered_single_message(message, None);
    assert(" ERROR "@ + seq![' '] + (message + seq!['\n']) =~= " ERROR "@ + seq![' '] + message
        + seq!['\n']);
    assert(" WARNING "@ + seq![' '] + (message + seq!['\n']) =~= " WARNING "@ + seq![' ']
        + message + seq!['\n']);
    assert(line_prefix(timestamp, level, target) + (message + seq!['\n']) =~= timestamp
        + seq![' ', '['] + level.spec_name() + seq![']', ' '] + target + seq![':', ' '] + message
        + seq!['\n']);
}

/// An unpainted message holds no escape character unless the value of a
/// field does.
pub proof fn lemma_plain_message_has_no_escape(fields: Seq<FieldModel>)
    requires
        forall|i: int| 0 <= i < fields.len() ==> !has_escape((#[trigger] fields[i]).value),
    ensures
        !has_escape(rendered_message(fields, None)),
    decreases fields.len(),
{
    if fields.len() > 0 {
        let front = fields.drop_last();
        assert forall|i: int| 0 <= i < front.len() implies !has_escape(
            (#[trigger] front[i]).value,
        ) by {
            assert(front[i] == fields[i]);
        }
        lemma_plain_message_has_no_escape(front);
        assert(!has_escape(fields[fields.len() - 1].value));
        lemma_escape_in_concat(
            rendered_message(front, None),
            rendered_field(fields.last(), None),
        );
    }
}

/// Without colours no line starts a colour sequence of its own, at any
/// level: if the time, the target and the field values hold no escape
/// character, neither does the terminal's line nor the log file's. The same
/// holds with colours for every event that is not an error or a warning.
pub proof fn lemma_no_escape_without_colors(is_ansi: bool, event: EventModel, timestamp: Seq<char>)
    requires
        !is_ansi || !(event.level == Level::Error || event.level == Level::Warn),
        !has_escape(timestamp),
        !has_escape(event.target),
        forall|i: int| 0 <= i < event.fields.len() ==> !has_escape((#[trigger] event.fields[i]).value),
    ensures
        !has_escape(terminal_line(is_ansi, event, timestamp)),
        !has_escape(plain_line(event, timestamp)),
{
    reveal_strlit(" ERROR ");
    reveal_strlit(" WARNING ");
    reveal_strlit("ERROR");
    reveal_strlit("WARN");
    reveal_strlit("INFO");
    reveal_strlit("DEBUG");
    reveal_strlit("TRACE");
    lemma_plain_message_has_no_escape(event.fields);
    let message = rendered_message(event.fields, None);
    let body = message + seq!['\n'];
    lemma_escape_in_concat(message, seq!['\n']);
    let name = event.level.spec_name();
    assert(!has_escape(name));
    lemma_escape_in_concat(timestamp, seq![' ', '[']);
    lemma_escape_in_concat(timestamp + seq![' ', '['], name);
    lemma_escape_in_concat(timestamp + seq![' ', '['] + name, seq![']', ' ']);
    lemma_escape_in_concat(timestamp + seq![' ', '['] + name + seq![']', ' '], event.target);
    lemma_escape_in_concat(
        timestamp + seq![' ', '['] + name + seq![']', ' '] + event.target,
        seq![':', ' '],
    );
    lemma_escape_in_concat(line_prefix(timestamp, event.level, event.target), body);
    let label = label_of(event.level);
    assert(!has_escape(label));
    lemma_escape_in_concat(label, seq![' ']);
    lemma_escape_in_concat(label + seq![' '], body);
}

/// Of a painted message only the message is visible.
pub proof fn lemma_visible_message(fields: Seq<FieldModel>, fg: Foreground, rest: Seq<char>)
    requires
        forall|i: int| 0 <= i < fields.len() ==> !has_escape((#[trigger] fields[i]).value),
    ensures
        visible(rendered_message(fields, Some(fg)) + rest) == rendered_message(fields, None)
            + visible(rest),
    decreases fields.len(),
{
    if fields.len() == 0 {
        assert(rendered_message(fields, Some(fg)) + rest =~= rest);
        assert(rendered_message(fields, None) + visible(rest) =~= visible(rest));
    } else {
        let front = fields.drop_last();
        let last = fields.last();
        assert forall|i: int| 0 <= i < front.len() implies !has_escape(
            (#[trigger] front[i]).value,
        ) by {
            assert(front[i] == fields[i]);
        }
        assert(!has_escape(fields[fields.len() - 1].value));
        let painted_last = rendered_field(last, Some(fg));
        let plain_last = rendered_field(last, None);
        lemma_visible_message(front, fg, painted_last + rest);
        assert(rendered_message(fields, Some(fg)) + rest =~= rendered_message(front, Some(fg)) + (
        painted_last + rest));
        if last.name == message_field() {
            lemma_visible_of_painted(fg, Background::Default, last.value, rest);
        } else {
            assert(painted_last + rest =~= rest);
            assert(plain_last + visible(rest) =~= visible(rest));
        }
        assert(rendered_message(front, None) + (plain_last + visible(rest)) =~= rendered_message(
            fields,
            None,
        ) + visible(rest));
    }
}

/// Colours change nothing but the colour: what is visible of a line with
/// colours is the line without them. So on any terminal an error reads as
/// ` ERROR `, a space and the message, and a warning likewise.
pub proof fn lemma_colors_only_wrap(event: EventModel, timestamp: Seq<char>)
    requires
        !has_escape(timestamp),
        !has_escape(event.target),
        forall|i: int| 0 <= i < event.fields.len() ==> !has_escape((#[trigger] event.fields[i]).value),
    ensures
        visible(terminal_line(true, event, timestamp)) == terminal_line(false, event, timestamp),
{
    let plain = terminal_line(false, event, timestamp);
    lemma_no_escape_without_colors(false, event, timestamp);
    if event.level == Level::Error || event.level == Level::Warn {
        reveal_strlit(" ERROR ");
        reveal_strlit(" WARNING ");
        let fg = tint_of(event.level);
        let label = label_of(event.level);
        assert(!has_escape(label));
        let message = rendered_message(event.fields, Some(fg));
        let tail = seq![' '] + (message + seq!['\n']);
        assert(terminal_line(true, event, timestamp) =~= painted(fg, Background::Black, label)
            + tail);
        lemma_visible_of_painted(fg, Background::Black, label, tail);
        lemma_visible_after_plain(seq![' '], message + seq!['\n']);
        lemma_visible_message(event.fields, fg, seq!['\n']);
        lemma_visible_after_plain(seq!['\n'], Seq::empty());
        assert(plain =~= label + (seq![' '] + (rendered_message(event.fields, None)
            + seq!['\n'])));
    } else {
        lemma_visible_after_plain(plain, Seq::empty());
    }
}

} // verus!
