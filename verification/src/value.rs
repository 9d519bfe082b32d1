//! The structured values that the conversion emits.

use vstd::prelude::*;
use crate::calendar::DateTime;
use crate::span::Span;

verus! {

/// A structured value of the host: nothing, a text, a number, a date, a list
/// of values, or a record of named values. Every value carries the span it is
/// attributed to.
#[derive(Debug, PartialEq, Eq)]
#[allow(inconsistent_fields)]
pub enum Value {
    /// The absent value.
    Nothing { span: Span },
    String { val: String, span: Span },
    /// A 64-bit floating-point number, held as its IEEE 754 bit pattern.
    Float { bits: u64, span: Span },
    Date { val: DateTime, span: Span },
    List { vals: Vec<Value>, span: Span },
    /// The value `vals[i]` goes by the name `cols[i]`.
    Record { cols: Vec<String>, vals: Vec<Value>, span: Span },
}

/// What a [`Value`] holds, as mathematical data.
#[allow(inconsistent_fields)]
pub enum ValueView {
    Nothing { span: Span },
    String { val: Seq<char>, span: Span },
    Float { bits: u64, span: Span },
    Date { val: DateTime, span: Span },
    List { vals: Seq<ValueView>, span: Span },
    Record { cols: Seq<Seq<char>>, vals: Seq<ValueView>, span: Span },
}

/// What `value` holds: texts as their characters, nested values as their views.
pub open spec fn view_of(value: Value) -> ValueView
    decreases value,
{
    match value {
        Value::Nothing { span } => ValueView::Nothing { span },
        Value::String { val, span } => ValueView::String { val: val@, span },
        Value::Float { bits, span } => ValueView::Float { bits, span },
        Value::Date { val, span } => ValueView::Date { val, span },
        Value::List { vals, span } => ValueView::List {
            vals: vals@.map_values(
                |v: Value|
                    if decreases_to!(value => v) {
                        view_of(v)
                    } else {
                        ValueView::Nothing { span }
                    },
            ),
            span,
        },
        Value::Record { cols, vals, span } => ValueView::Record {
            cols: texts(cols@),
            vals: vals@.map_values(
                |v: Value|
                    if decreases_to!(value => v) {
                        view_of(v)
                    } else {
                        ValueView::Nothing { span }
                    },
            ),
            span,
        },
    }
}

impl View for Value {
    type V = ValueView;

    open spec fn view(&self) -> ValueView {
        view_of(*self)
    }
}

/// The views of the values of a sequence, in order.
pub open spec fn views(vals: Seq<Value>) -> Seq<ValueView> {
    vals.map_values(|v: Value| v@)
}

/// The characters of the texts of a sequence, in order.
pub open spec fn texts(names: Seq<String>) -> Seq<Seq<char>> {
    names.map_values(|name: String| name@)
}

/// A list holds the views of its items.
pub proof fn lemma_view_list(value: Value)
    requires
        value is List,
    ensures
        value@ == (ValueView::List { vals: views(value->List_vals@), span: value->List_span }),
{
    let vals = value->List_vals;
    assert forall|i: int| 0 <= i < vals@.len() implies #[trigger] value@->List_vals[i]
        == views(vals@)[i] by {
        assert(decreases_to!(value => vals@[i]));
    }
    assert(value@->List_vals =~= views(vals@));
}

/// A record holds its names and the views of its values.
pub proof fn lemma_view_record(value: Value)
    requires
        value is Record,
    ensures
        value@ == (ValueView::Record {
            cols: texts(value->Record_cols@),
            vals: views(value->Record_vals@),
            span: value->Record_span,
        }),
{
    let vals = value->Record_vals;
    assert forall|i: int| 0 <= i < vals@.len() implies #[trigger] value@->Record_vals[i]
        == views(vals@)[i] by {
        assert(decreases_to!(value => vals@[i]));
    }
    assert(value@->Record_vals =~= views(vals@));
}

impl ValueView {
    /// The span this value is attributed to.
    pub open spec fn span(self) -> Span {
        match self {
            ValueView::Nothing { span } => span,
            ValueView::String { span, .. } => span,
            ValueView::Float { span, .. } => span,
            ValueView::Date { span, .. } => span,
            ValueView::List { span, .. } => span,
            ValueView::Record { span, .. } => span,
        }
    }

    /// Whether `index` is where a record holds the value that goes by `name`:
    /// the first place at which the name stands and a value stands too.
    pub open spec fn is_place_of(self, name: Seq<char>, index: int) -> bool {
        &&& self is Record
        &&& 0 <= index < self->cols.len()
        &&& index < self->Record_vals.len()
        &&& self->cols[index] == name
        &&& forall|earlier: int| 0 <= earlier < index ==> self->cols[earlier] != name
    }

    /// Whether a record holds a value that goes by `name`.
    pub open spec fn has_key(self, name: Seq<char>) -> bool {
        exists|index: int| self.is_place_of(name, index)
    }
}

impl Default for Value {
    /// The absent value, attributed to nowhere.
    fn default() -> (value: Value)
        ensures
            value@ == (ValueView::Nothing { span: Span::unknown() }),
    {
        Value::Nothing { span: Span::unknown() }
    }
}

impl Value {
    /// The absent value.
    pub fn nothing(span: Span) -> (value: Value)
        ensures
            value@ == (ValueView::Nothing { span }),
    {
        Value::Nothing { span }
    }

    /// The text `val`.
    pub fn string(val: &str, span: Span) -> (value: Value)
        ensures
            value@ == (ValueView::String { val: val@, span }),
    {
        Value::String { val: val.to_owned(), span }
    }

    /// The floating-point number with the bit pattern `bits`.
    pub fn float(bits: u64, span: Span) -> (value: Value)
        ensures
            value@ == (ValueView::Float { bits, span }),
    {
        Value::Float { bits, span }
    }

    /// The date-time `val`.
    pub fn date(val: DateTime, span: Span) -> (value: Value)
        ensures
            value@ == (ValueView::Date { val, span }),
    {
        Value::Date { val, span }
    }

    /// The list of `vals`, in their order.
    pub fn list(vals: Vec<Value>, span: Span) -> (value: Value)
        ensures
            value@ == (ValueView::List { vals: views(vals@), span }),
    {
        let value = Value::List { vals, span };
        proof {
            lemma_view_list(value);
        }
        value
    }

    /// The record in which `vals[i]` goes by the name `cols[i]`.
    pub fn record(cols: Vec<String>, vals: Vec<Value>, span: Span) -> (value: Value)
        ensures
            value@ == (ValueView::Record { cols: texts(cols@), vals: views(vals@), span }),
    {
        let value = Value::Record { cols, vals, span };
        proof {
            lemma_view_record(value);
        }
        value
    }

    /// The span this value is attributed to.
    pub fn span(&self) -> (span: Span)
        ensures
            span == self@.span(),
    {
        match self {
            Value::Nothing { span } => *span,
            Value::String { span, .. } => *span,
            Value::Float { span, .. } => *span,
            Value::Date { span, .. } => *span,
            Value::List { span, .. } => *span,
            Value::Record { span, .. } => *span,
        }
    }

    /// Whether this is the absent value.
    pub fn is_nothing(&self) -> (absent: bool)
        ensures
            absent == (self@ is Nothing),
    {
        match self {
            Value::Nothing { .. } => true,
            _ => false,
        }
    }

    /// The text, if this is one.
    pub fn as_string(&self) -> (text: Option<String>)
        ensures
            match text {
                Some(text) => self@ is String && text@ == self@->String_val,
                None => !(self@ is String),
            },
    {
        match self {
            Value::String { val, .. } => Some(val.clone()),
            _ => None,
        }
    }

    /// The bit pattern of the number, if this is one.
    pub fn as_float_bits(&self) -> (bits: Option<u64>)
        ensures
            match bits {
                Some(bits) => self@ is Float && bits == self@->bits,
                None => !(self@ is Float),
            },
    {
        match self {
            Value::Float { bits, .. } => Some(*bits),
            _ => None,
        }
    }

    /// The date-time, if this is one.
    pub fn as_date(&self) -> (at: Option<DateTime>)
        ensures
            match at {
                Some(at) => self@ is Date && at == self@->Date_val,
                None => !(self@ is Date),
            },
    {
        match self {
            Value::Date { val, .. } => Some(*val),
            _ => None,
        }
    }

    /// The items, if this is a list.
    pub fn as_list(&self) -> (items: Option<&Vec<Value>>)
        ensures
            match items {
                Some(items) => self@ is List && views(items@) == self@->List_vals,
                None => !(self@ is List),
            },
    {
        match self {
            Value::List { vals, .. } => {
                proof {
                    lemma_view_list(*self);
                }
                Some(vals)
            },
            _ => None,
        }
    }

    /// The names and the values, if this is a record.
    pub fn as_record(&self) -> (parts: Option<(&Vec<String>, &Vec<Value>)>)
        ensures
            match parts {
                Some((cols, vals)) => {
                    &&& self@ is Record
                    &&& texts(cols@) == self@->cols
                    &&& views(vals@) == self@->Record_vals
                },
                None => !(self@ is Record),
            },
    {
        match self {
            Value::Record { cols, vals, .. } => {
                proof {
                    lemma_view_record(*self);
                }
                Some((cols, vals))
            },
            _ => None,
        }
    }

    /// The value that goes by `name` in this record: the one at the first
    /// place where the name stands. `None` where this is no record or has no
    /// such name.
    pub fn get_data_by_key(&self, name: &str) -> (found: Option<&Value>)
        ensures
            match found {
                Some(value) => exists|index: int|
                    self@.is_place_of(name@, index) && value@ == self@->Record_vals[index],
                None => !self@.has_key(name@),
            },
    {
        match self {
            Value::Record { cols, vals, .. } => {
                proof {
                    lemma_view_record(*self);
                }
                let wanted = name.to_owned();
                let mut index: usize = 0;
                while index < cols.len() && index < vals.len()
                    invariant
                        wanted@ == name@,
                        self@ is Record,
                        self@->cols == texts(cols@),
                        self@->Record_vals == views(vals@),
                        forall|earlier: int| 0 <= earlier < index ==> self@->cols[earlier] != name@,
                    decreases cols.len() - index,
                {
                    if cols[index] == wanted {
                        assert(self@.is_place_of(name@, index as int));
                        assert(views(vals@)[index as int] == vals@[index as int]@);
                        return Some(&vals[index]);
                    }
                    index = index + 1;
                }
                assert forall|place: int| !self@.is_place_of(name@, place) by {
                    if self@.is_place_of(name@, place) {
                        assert(place < index);
                    }
                }
                None
            },
            _ => None,
        }
    }
}

} // verus!
