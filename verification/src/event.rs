//! Events as the sinks see them.

use vstd::prelude::*;
use vstd::string::StringExecFns;

use crate::level::Level;

verus! {

/// A structured field of an event, as mathematics.
pub struct FieldModel {
    pub name: Seq<char>,
    pub value: Seq<char>,
}

/// An event, as mathematics.
pub struct EventModel {
    pub level: Level,
    pub target: Seq<char>,
    pub fields: Seq<FieldModel>,
}

/// A structured field of an event: its name and its value as text.
#[derive(Clone, Debug, PartialEq, Eq)]
pub struct Field {
    pub name: String,
    pub value: String,
}

/// An event: how severe it is, where it comes from, and its fields. The
/// field named `message` is the text that a person reads.
#[derive(Clone, Debug, PartialEq, Eq)]
pub struct Event {
    pub level: Level,
    pub target: String,
    pub fields: Vec<Field>,
}

impl View for Field {
    type V = FieldModel;

    open spec fn view(&self) -> FieldModel {
        FieldModel { name: self.name@, value: self.value@ }
    }
}

/// The views of a list of fields, in order.
pub open spec fn fields_view(fields: Seq<Field>) -> Seq<FieldModel> {
    Seq::new(fields.len(), |i: int| fields[i]@)
}

impl View for Event {
    type V = EventModel;

    open spec fn view(&self) -> EventModel {
        EventModel { level: self.level, target: self.target@, fields: fields_view(self.fields@) }
    }
}

/// Name of the field that carries an event's text.
pub open spec fn message_field() -> Seq<char> {
    "message"@
}

impl Field {
    pub fn new(name: &str, value: &str) -> (r: Field)
        ensures
            r@ == (FieldModel { name: name@, value: value@ }),
    {
        Field { name: String::from_str(name), value: String::from_str(value) }
    }
}

impl Event {
    /// An event whose only field is its message.
    pub fn new(level: Level, target: &str, message: &str) -> (r: Event)
        ensures
            r@ == (EventModel {
                level,
                target: target@,
                fields: seq![FieldModel { name: message_field(), value: message@ }],
            }),
    {
        let mut fields: Vec<Field> = Vec::new();
        fields.push(Field::new("message", message));
        let r = Event { level, target: String::from_str(target), fields };
        assert(r@.fields =~= seq![FieldModel { name: message_field(), value: message@ }]);
        r
    }

    /// Adds a field after those that the event has.
    pub fn record(&mut self, name: &str, value: &str)
        ensures
            final(self)@ == (EventModel {
                fields: old(self)@.fields.push(FieldModel { name: name@, value: value@ }),
                ..old(self)@
            }),
    {
        self.fields.push(Field::new(name, value));
        assert(self@.fields =~= old(self)@.fields.push(FieldModel { name: name@, value: value@ }));
    }
}

} // verus!
