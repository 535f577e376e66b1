//! The payloads that messages carry, each with its JSON form.
//!
//! Every type here has a document that it is written as and a rule for which
//! documents it is read from. Members are found by name; members that a type
//! does not know are ignored.

use crate::json::{
    any_field, bool_field, decoded, field, i64_field, leaf, lemma_get_empty, lemma_get_with, member,
    node, object_insert, optional_leaf, optional_member, optional_node, optional_text_field,
    optional_u8_field, read_u8, read_u8_pair, text_field, text_of, text_or_null, u8_field,
    u8_or_null, u8_pair, value_as_str, value_as_u64, value_bool, value_clone, value_i64,
    value_is_object, value_null, value_object, value_str, value_u64, value_view, DecodeError,
    JsonValue,
};
use serde_json::Value;
use vstd::prelude::*;

verus! {

/// Where a visual command applies.
#[derive(Debug, Clone, Copy, PartialEq, Eq)]
pub enum Target {
    /// The device and the display within the host software.
    Both,
    /// Only the device.
    Hardware,
    /// Only the display within the host software.
    Software,
}

impl Target {
    /// The number that stands for the value on the wire.
    pub open spec fn code(self) -> u8 {
        match self {
            Target::Both => 0,
            Target::Hardware => 1,
            Target::Software => 2,
        }
    }

    /// The value that a number stands for.
    pub open spec fn of_code(n: u8) -> Option<Target> {
        if n == 0 {
            Some(Target::Both)
        } else if n == 1 {
            Some(Target::Hardware)
        } else if n == 2 {
            Some(Target::Software)
        } else {
            None
        }
    }

    /// The value that a JSON document denotes: one of the numbers above.
    pub open spec fn of_json(j: JsonValue) -> Option<Target> {
        match j.as_u8() {
            Some(n) => Self::of_code(n),
            None => None,
        }
    }

    /// The JSON document of the value, a number.
    pub open spec fn to_json(self) -> JsonValue {
        JsonValue::Int(self.code() as int)
    }

    /// The number that stands for the value on the wire.
    pub fn to_code(&self) -> (n: u8)
        ensures
            n == self.code(),
    {
        match self {
            Target::Both => 0,
            Target::Hardware => 1,
            Target::Software => 2,
        }
    }

    /// The value that a number stands for, if any.
    pub fn from_code(n: u8) -> (r: Option<Target>)
        ensures
            r == Self::of_code(n),
    {
        if n == 0 {
            Some(Target::Both)
        } else if n == 1 {
            Some(Target::Hardware)
        } else if n == 2 {
            Some(Target::Software)
        } else {
            None
        }
    }

    /// Reads the value from a JSON document.
    pub fn from_json(v: &Value) -> (r: Option<Target>)
        ensures
            r == Self::of_json(value_view(*v)),
    {
        match read_u8(v) {
            Some(n) => Self::from_code(n),
            None => None,
        }
    }

    /// Writes the value as a JSON document.
    pub fn to_value(&self) -> (v: Value)
        ensures
            value_view(v) == self.to_json(),
    {
        value_u64(self.to_code() as u64)
    }
}

/// A value is read back from its own document as it was.
pub proof fn lemma_target_round_trip(x: Target)
    ensures
        Target::of_json(x.to_json()) == Some(x),
{
}

/// The vertical alignment of a title. Titles are always centered
/// horizontally.
#[derive(Debug, Clone, Copy, PartialEq, Eq)]
pub enum Alignment {
    /// At the top of the key.
    Top,
    /// In the middle of the key.
    Middle,
    /// At the bottom of the key.
    Bottom,
}

impl Alignment {
    /// The word that stands for the value on the wire.
    pub open spec fn text(self) -> Seq<char> {
        match self {
            Alignment::Top => "top"@,
            Alignment::Middle => "middle"@,
            Alignment::Bottom => "bottom"@,
        }
    }

    /// The value that a word stands for.
    pub open spec fn of_text(s: Seq<char>) -> Option<Alignment> {
        if s == "top"@ {
            Some(Alignment::Top)
        } else if s == "middle"@ {
            Some(Alignment::Middle)
        } else if s == "bottom"@ {
            Some(Alignment::Bottom)
        } else {
            None
        }
    }

    /// The value that a JSON document denotes: one of the words above.
    pub open spec fn of_json(j: JsonValue) -> Option<Alignment> {
        match j.as_text() {
            Some(s) => Self::of_text(s),
            None => None,
        }
    }

    /// The JSON document of the value, a string.
    pub open spec fn to_json(self) -> JsonValue {
        JsonValue::Str(self.text())
    }

    /// The word that stands for the value on the wire.
    pub fn as_text(&self) -> (s: &'static str)
        ensures
            s@ == self.text(),
    {
        match self {
            Alignment::Top => "top",
            Alignment::Middle => "middle",
            Alignment::Bottom => "bottom",
        }
    }

    /// The value that a word stands for, if any.
    pub fn from_text(s: &str) -> (r: Option<Alignment>)
        ensures
            r == Self::of_text(s@),
    {
        if s.eq("top") {
            Some(Alignment::Top)
        } else if s.eq("middle") {
            Some(Alignment::Middle)
        } else if s.eq("bottom") {
            Some(Alignment::Bottom)
        } else {
            None
        }
    }

    /// Reads the value from a JSON document.
    pub fn from_json(v: &Value) -> (r: Option<Alignment>)
        ensures
            r == Self::of_json(value_view(*v)),
    {
        match value_as_str(v) {
            Some(s) => Self::from_text(s),
            None => None,
        }
    }

    /// Writes the value as a JSON document.
    pub fn to_value(&self) -> (v: Value)
        ensures
            value_view(v) == self.to_json(),
    {
        value_str(self.as_text())
    }
}

/// A value is read back from its own document as it was.
pub proof fn lemma_alignment_round_trip(x: Alignment)
    ensures
        Alignment::of_json(x.to_json()) == Some(x),
{
    reveal_strlit("top");
    assert("top"@.len() == 3);
    reveal_strlit("middle");
    assert("middle"@.len() == 6);
    reveal_strlit("bottom");
    assert("bottom"@.len() == 6);
    assert("middle"@[0] != "bottom"@[0]);
}

/// The kind of a connected hardware device.
#[derive(Debug, Clone, Copy, PartialEq, Eq)]
pub enum DeviceType {
    /// The Stream Deck.
    StreamDeck,
    /// The Stream Deck Mini.
    StreamDeckMini,
    /// The Stream Deck XL.
    StreamDeckXl,
    /// The Stream Deck Mobile app.
    StreamDeckMobile,
    /// The G-keys of a Corsair keyboard.
    CorsairGKeys,
    /// The Stream Deck Pedal.
    StreamDeckPedal,
    /// The Corsair Voyager laptop.
    CorsairVoyager,
    /// The Stream Deck +.
    StreamDeckPlus,
    /// A device that this catalogue has no name for, by its number.
    Unknown(u64),
}

impl DeviceType {
    /// The number that stands for the value on the wire.
    pub open spec fn code(self) -> u64 {
        match self {
            DeviceType::StreamDeck => 0,
            DeviceType::StreamDeckMini => 1,
            DeviceType::StreamDeckXl => 2,
            DeviceType::StreamDeckMobile => 3,
            DeviceType::CorsairGKeys => 4,
            DeviceType::StreamDeckPedal => 5,
            DeviceType::CorsairVoyager => 6,
            DeviceType::StreamDeckPlus => 7,
            DeviceType::Unknown(n) => n,
        }
    }

    /// The value that a number stands for.
    pub open spec fn of_code(n: u64) -> DeviceType {
        if n == 0 {
            DeviceType::StreamDeck
        } else if n == 1 {
            DeviceType::StreamDeckMini
        } else if n == 2 {
            DeviceType::StreamDeckXl
        } else if n == 3 {
            DeviceType::StreamDeckMobile
        } else if n == 4 {
            DeviceType::CorsairGKeys
        } else if n == 5 {
            DeviceType::StreamDeckPedal
        } else if n == 6 {
            DeviceType::CorsairVoyager
        } else if n == 7 {
            DeviceType::StreamDeckPlus
        } else {
            DeviceType::Unknown(n)
        }
    }

    /// Whether the value is the one that its own number is read as: every
    /// value but `Unknown` of a number that has a name.
    pub open spec fn canonical(self) -> bool {
        Self::of_code(self.code()) == self
    }

    /// The value that a JSON document denotes: any integer that fits `u64`.
    pub open spec fn of_json(j: JsonValue) -> Option<DeviceType> {
        match j.as_u64() {
            Some(n) => Some(Self::of_code(n)),
            None => None,
        }
    }

    /// The JSON document of the value, a number.
    pub open spec fn to_json(self) -> JsonValue {
        JsonValue::Int(self.code() as int)
    }

    /// The number that stands for the value on the wire.
    pub fn to_code(&self) -> (n: u64)
        ensures
            n == self.code(),
    {
        match self {
            DeviceType::StreamDeck => 0,
            DeviceType::StreamDeckMini => 1,
            DeviceType::StreamDeckXl => 2,
            DeviceType::StreamDeckMobile => 3,
            DeviceType::CorsairGKeys => 4,
            DeviceType::StreamDeckPedal => 5,
            DeviceType::CorsairVoyager => 6,
            DeviceType::StreamDeckPlus => 7,
            DeviceType::Unknown(n) => *n,
        }
    }

    /// The value that a number stands for.
    pub fn from_code(n: u64) -> (r: DeviceType)
        ensures
            r == Self::of_code(n),
    {
        if n == 0 {
            DeviceType::StreamDeck
        } else if n == 1 {
            DeviceType::StreamDeckMini
        } else if n == 2 {
            DeviceType::StreamDeckXl
        } else if n == 3 {
            DeviceType::StreamDeckMobile
        } else if n == 4 {
            DeviceType::CorsairGKeys
        } else if n == 5 {
            DeviceType::StreamDeckPedal
        } else if n == 6 {
            DeviceType::CorsairVoyager
        } else if n == 7 {
            DeviceType::StreamDeckPlus
        } else {
            DeviceType::Unknown(n)
        }
    }

    /// Reads the value from a JSON document.
    pub fn from_json(v: &Value) -> (r: Option<DeviceType>)
        ensures
            r == Self::of_json(value_view(*v)),
    {
        match value_as_u64(v) {
            Some(n) => Some(Self::from_code(n)),
            None => None,
        }
    }

    /// Writes the value as a JSON document.
    pub fn to_value(&self) -> (v: Value)
        ensures
            value_view(v) == self.to_json(),
    {
        value_u64(self.to_code())
    }
}

/// Every number is written back from the value it is read as.
pub proof fn lemma_device_type_code(n: u64)
    ensures
        DeviceType::of_code(n).code() == n,
        DeviceType::of_code(n).canonical(),
{
}

/// A canonical value is read back from its own document as it was.
pub proof fn lemma_device_type_round_trip(x: DeviceType)
    requires
        x.canonical(),
    ensures
        DeviceType::of_json(x.to_json()) == Some(x),
{
}

/// The place of a key on a device, counted from zero at the top left corner.
#[derive(Debug, Clone, Copy, PartialEq, Eq)]
pub struct Coordinates {
    /// The column of the key.
    pub column: u8,
    /// The row of the key.
    pub row: u8,
}

impl Coordinates {
    /// The value that a JSON document denotes: an object whose members are read
    /// by name, the first member at fault deciding the error.
    pub open spec fn of_json(j: JsonValue) -> Result<Coordinates, DecodeError> {
        let column = leaf(j, "column", |m: JsonValue| m.as_u8());
        let row = leaf(j, "row", |m: JsonValue| m.as_u8());
        if !(j is Object) {
            Err(DecodeError::NotAnObject)
        } else if column is Err {
            Err(column->Err_0)
        } else if row is Err {
            Err(row->Err_0)
        } else {
            Ok(Coordinates { column: column->Ok_0, row: row->Ok_0 })
        }
    }

    /// The JSON document of the value.
    pub open spec fn to_json(self) -> JsonValue {
        let j = JsonValue::object();
        let j = j.with("column"@, JsonValue::Int(self.column as int));
        let j = j.with("row"@, JsonValue::Int(self.row as int));
        j
    }
}

impl Coordinates {
    /// Reads the value from a JSON document.
    pub fn from_json(v: &Value) -> (r: Result<Self, DecodeError>)
        ensures
            r == Coordinates::of_json(value_view(*v)),
    {
        if !value_is_object(v) {
            return Err(DecodeError::NotAnObject);
        }
        let column = u8_field(v, "column")?;
        let row = u8_field(v, "row")?;
        Ok(Coordinates { column, row })
    }

    /// Writes the value as a JSON document.
    pub fn to_value(&self) -> (v: Value)
        ensures
            value_view(v) == self.to_json(),
    {
        let mut obj = value_object();
        object_insert(&mut obj, "column", value_u64(self.column as u64));
        object_insert(&mut obj, "row", value_u64(self.row as u64));
        obj
    }
}

/// A value is read back from its own document as it was.
pub proof fn lemma_coordinates_round_trip(x: Coordinates)
    ensures
        Coordinates::of_json(x.to_json()) == Ok::<Coordinates, DecodeError>(x),
{
    broadcast use {lemma_get_with, lemma_get_empty};

    reveal_strlit("column");
    assert("column"@.len() == 6);
    reveal_strlit("row");
    assert("row"@.len() == 3);
}

/// The size of a device in keys.
#[derive(Debug, Clone, Copy, PartialEq, Eq)]
pub struct DeviceSize {
    /// The number of key columns.
    pub columns: u8,
    /// The number of key rows.
    pub rows: u8,
}

impl DeviceSize {
    /// The value that a JSON document denotes: an object whose members are read
    /// by name, the first member at fault deciding the error.
    pub open spec fn of_json(j: JsonValue) -> Result<DeviceSize, DecodeError> {
        let columns = leaf(j, "columns", |m: JsonValue| m.as_u8());
        let rows = leaf(j, "rows", |m: JsonValue| m.as_u8());
        if !(j is Object) {
            Err(DecodeError::NotAnObject)
        } else if columns is Err {
            Err(columns->Err_0)
        } else if rows is Err {
            Err(rows->Err_0)
        } else {
            Ok(DeviceSize { columns: columns->Ok_0, rows: rows->Ok_0 })
        }
    }

    /// The JSON document of the value.
    pub open spec fn to_json(self) -> JsonValue {
        let j = JsonValue::object();
        let j = j.with("columns"@, JsonValue::Int(self.columns as int));
        let j = j.with("rows"@, JsonValue::Int(self.rows as int));
        j
    }
}

impl DeviceSize {
    /// Reads the value from a JSON document.
    pub fn from_json(v: &Value) -> (r: Result<Self, DecodeError>)
        ensures
            r == DeviceSize::of_json(value_view(*v)),
    {
        if !value_is_object(v) {
            return Err(DecodeError::NotAnObject);
        }
        let columns = u8_field(v, "columns")?;
        let rows = u8_field(v, "rows")?;
        Ok(DeviceSize { columns, rows })
    }

    /// Writes the value as a JSON document.
    pub fn to_value(&self) -> (v: Value)
        ensures
            value_view(v) == self.to_json(),
    {
        let mut obj = value_object();
        object_insert(&mut obj, "columns", value_u64(self.columns as u64));
        object_insert(&mut obj, "rows", value_u64(self.rows as u64));
        obj
    }
}

/// A value is read back from its own document as it was.
pub proof fn lemma_device_size_round_trip(x: DeviceSize)
    ensures
        DeviceSize::of_json(x.to_json()) == Ok::<DeviceSize, DecodeError>(x),
{
    broadcast use {lemma_get_with, lemma_get_empty};

    reveal_strlit("columns");
    assert("columns"@.len() == 7);
    reveal_strlit("rows");
    assert("rows"@.len() == 4);
}

/// The title to set with a `SetTitle` command.
#[derive(Debug, PartialEq)]
pub struct TitlePayload {
    /// The new title.
    pub title: Option<String>,
    /// The displays to set it on.
    pub target: Target,
    /// The state to set the title for; all states where it is `None`, and the
    /// member is then left out.
    pub state: Option<u8>,
}

/// The mathematical value of a [`TitlePayload`].
pub struct TitlePayloadView {
    pub title: Option<Seq<char>>,
    pub target: Target,
    pub state: Option<u8>,
}

impl View for TitlePayload {
    type V = TitlePayloadView;

    open spec fn view(&self) -> TitlePayloadView {
        TitlePayloadView {
            title: text_of(self.title),
            target: self.target,
            state: self.state,
        }
    }
}

impl TitlePayloadView {
    /// The value that a JSON document denotes: an object whose members are read
    /// by name, the first member at fault deciding the error.
    pub open spec fn of_json(j: JsonValue) -> Result<TitlePayloadView, DecodeError> {
        let title = optional_leaf(j, "title", |m: JsonValue| m.as_text());
        let target = leaf(j, "target", |m: JsonValue| Target::of_json(m));
        let state = optional_leaf(j, "state", |m: JsonValue| m.as_u8());
        if !(j is Object) {
            Err(DecodeError::NotAnObject)
        } else if title is Err {
            Err(title->Err_0)
        } else if target is Err {
            Err(target->Err_0)
        } else if state is Err {
            Err(state->Err_0)
        } else {
            Ok(TitlePayloadView { title: title->Ok_0, target: target->Ok_0, state: state->Ok_0 })
        }
    }

    /// The JSON document of the value.
    pub open spec fn to_json(self) -> JsonValue {
        let j = JsonValue::object();
        let j = j.with("title"@, JsonValue::text_or_null(self.title));
        let j = j.with("target"@, self.target.to_json());
        let j = if self.state is Some {
            j.with("state"@, JsonValue::Int(self.state->Some_0 as int))
        } else {
            j
        };
        j
    }
}

impl TitlePayload {
    /// Reads the value from a JSON document.
    pub fn from_json(v: &Value) -> (r: Result<Self, DecodeError>)
        ensures
            decoded(r) == TitlePayloadView::of_json(value_view(*v)),
    {
        if !value_is_object(v) {
            return Err(DecodeError::NotAnObject);
        }
        let title = optional_text_field(v, "title")?;
        let target = match Target::from_json(member(v, "target")?) {
            Some(x) => x,
            None => return Err(DecodeError::Invalid("target")),
        };
        let state = optional_u8_field(v, "state")?;
        Ok(TitlePayload { title, target, state })
    }

    /// Writes the value as a JSON document.
    pub fn to_value(&self) -> (v: Value)
        ensures
            value_view(v) == self@.to_json(),
    {
        let mut obj = value_object();
        object_insert(&mut obj, "title", text_or_null(&self.title));
        object_insert(&mut obj, "target", self.target.to_value());
        if let Some(n) = self.state {
            object_insert(&mut obj, "state", value_u64(n as u64));
        }
        obj
    }
}

/// A value is read back from its own document as it was.
pub proof fn lemma_title_payload_round_trip(x: TitlePayloadView)
    ensures
        TitlePayloadView::of_json(x.to_json()) == Ok::<TitlePayloadView, DecodeError>(x),
{
    broadcast use {lemma_get_with, lemma_get_empty};

    reveal_strlit("title");
    assert("title"@.len() == 5);
    reveal_strlit("target");
    assert("target"@.len() == 6);
    reveal_strlit("state");
    assert("state"@.len() == 5);
    assert("title"@[0] != "state"@[0]);
    lemma_target_round_trip(x.target);
}

/// The image to set with a `SetImage` command.
#[derive(Debug, PartialEq)]
pub struct ImagePayload {
    /// The image, as a data URI.
    pub image: Option<String>,
    /// The displays to set it on.
    pub target: Target,
    /// The state to set the image for; all states where it is `None`, and the
    /// member is then left out.
    pub state: Option<u8>,
}

/// The mathematical value of a [`ImagePayload`].
pub struct ImagePayloadView {
    pub image: Option<Seq<char>>,
    pub target: Target,
    pub state: Option<u8>,
}

impl View for ImagePayload {
    type V = ImagePayloadView;

    open spec fn view(&self) -> ImagePayloadView {
        ImagePayloadView {
            image: text_of(self.image),
            target: self.target,
            state: self.state,
        }
    }
}

impl ImagePayloadView {
    /// The value that a JSON document denotes: an object whose members are read
    /// by name, the first member at fault deciding the error.
    pub open spec fn of_json(j: JsonValue) -> Result<ImagePayloadView, DecodeError> {
        let image = optional_leaf(j, "image", |m: JsonValue| m.as_text());
        let target = leaf(j, "target", |m: JsonValue| Target::of_json(m));
        let state = optional_leaf(j, "state", |m: JsonValue| m.as_u8());
        if !(j is Object) {
            Err(DecodeError::NotAnObject)
        } else if image is Err {
            Err(image->Err_0)
        } else if target is Err {
            Err(target->Err_0)
        } else if state is Err {
            Err(state->Err_0)
        } else {
            Ok(ImagePayloadView { image: image->Ok_0, target: target->Ok_0, state: state->Ok_0 })
        }
    }

    /// The JSON document of the value.
    pub open spec fn to_json(self) -> JsonValue {
        let j = JsonValue::object();
        let j = j.with("image"@, JsonValue::text_or_null(self.image));
        let j = j.with("target"@, self.target.to_json());
        let j = if self.state is Some {
            j.with("state"@, JsonValue::Int(self.state->Some_0 as int))
        } else {
            j
        };
        j
    }
}

impl ImagePayload {
    /// Reads the value from a JSON document.
    pub fn from_json(v: &Value) -> (r: Result<Self, DecodeError>)
        ensures
            decoded(r) == ImagePayloadView::of_json(value_view(*v)),
    {
        if !value_is_object(v) {
            return Err(DecodeError::NotAnObject);
        }
        let image = optional_text_field(v, "image")?;
        let target = match Target::from_json(member(v, "target")?) {
            Some(x) => x,
            None => return Err(DecodeError::Invalid("target")),
        };
        let state = optional_u8_field(v, "state")?;
        Ok(ImagePayload { image, target, state })
    }

    /// Writes the value as a JSON document.
    pub fn to_value(&self) -> (v: Value)
        ensures
            value_view(v) == self@.to_json(),
    {
        let mut obj = value_object();
        object_insert(&mut obj, "image", text_or_null(&self.image));
        object_insert(&mut obj, "target", self.target.to_value());
        if let Some(n) = self.state {
            object_insert(&mut obj, "state", value_u64(n as u64));
        }
        obj
    }
}

/// A value is read back from its own document as it was.
pub proof fn lemma_image_payload_round_trip(x: ImagePayloadView)
    ensures
        ImagePayloadView::of_json(x.to_json()) == Ok::<ImagePayloadView, DecodeError>(x),
{
    broadcast use {lemma_get_with, lemma_get_empty};

    reveal_strlit("image");
    assert("image"@.len() == 5);
    reveal_strlit("target");
    assert("target"@.len() == 6);
    reveal_strlit("state");
    assert("state"@.len() == 5);
    assert("image"@[0] != "state"@[0]);
    lemma_target_round_trip(x.target);
}

/// The state to set with a `SetState` command.
#[derive(Debug, Clone, Copy, PartialEq, Eq)]
pub struct StatePayload {
    /// The new state.
    pub state: u8,
}

impl StatePayload {
    /// The value that a JSON document denotes: an object whose members are read
    /// by name, the first member at fault deciding the error.
    pub open spec fn of_json(j: JsonValue) -> Result<StatePayload, DecodeError> {
        let state = leaf(j, "state", |m: JsonValue| m.as_u8());
        if !(j is Object) {
            Err(DecodeError::NotAnObject)
        } else if state is Err {
            Err(state->Err_0)
        } else {
            Ok(StatePayload { state: state->Ok_0 })
        }
    }

    /// The JSON document of the value.
    pub open spec fn to_json(self) -> JsonValue {
        let j = JsonValue::object();
        let j = j.with("state"@, JsonValue::Int(self.state as int));
        j
    }
}

impl StatePayload {
    /// Reads the value from a JSON document.
    pub fn from_json(v: &Value) -> (r: Result<Self, DecodeError>)
        ensures
            r == StatePayload::of_json(value_view(*v)),
    {
        if !value_is_object(v) {
            return Err(DecodeError::NotAnObject);
        }
        let state = u8_field(v, "state")?;
        Ok(StatePayload { state })
    }

    /// Writes the value as a JSON document.
    pub fn to_value(&self) -> (v: Value)
        ensures
            value_view(v) == self.to_json(),
    {
        let mut obj = value_object();
        object_insert(&mut obj, "state", value_u64(self.state as u64));
        obj
    }
}

/// A value is read back from its own document as it was.
pub proof fn lemma_state_payload_round_trip(x: StatePayload)
    ensures
        StatePayload::of_json(x.to_json()) == Ok::<StatePayload, DecodeError>(x),
{
    broadcast use {lemma_get_with, lemma_get_empty};

    reveal_strlit("state");
    assert("state"@.len() == 5);
}

/// The profile to activate with a `SwitchToProfile` command.
#[derive(Debug, PartialEq)]
pub struct ProfilePayload {
    /// The name of the profile.
    pub profile: String,
}

/// The mathematical value of a [`ProfilePayload`].
pub struct ProfilePayloadView {
    pub profile: Seq<char>,
}

impl View for ProfilePayload {
    type V = ProfilePayloadView;

    open spec fn view(&self) -> ProfilePayloadView {
        ProfilePayloadView {
            profile: self.profile@,
        }
    }
}

impl ProfilePayloadView {
    /// The value that a JSON document denotes: an object whose members are read
    /// by name, the first member at fault deciding the error.
    pub open spec fn of_json(j: JsonValue) -> Result<ProfilePayloadView, DecodeError> {
        let profile = leaf(j, "profile", |m: JsonValue| m.as_text());
        if !(j is Object) {
            Err(DecodeError::NotAnObject)
        } else if profile is Err {
            Err(profile->Err_0)
        } else {
            Ok(ProfilePayloadView { profile: profile->Ok_0 })
        }
    }

    /// The JSON document of the value.
    pub open spec fn to_json(self) -> JsonValue {
        let j = JsonValue::object();
        let j = j.with("profile"@, JsonValue::Str(self.profile));
        j
    }
}

impl ProfilePayload {
    /// Reads the value from a JSON document.
    pub fn from_json(v: &Value) -> (r: Result<Self, DecodeError>)
        ensures
            decoded(r) == ProfilePayloadView::of_json(value_view(*v)),
    {
        if !value_is_object(v) {
            return Err(DecodeError::NotAnObject);
        }
        let profile = text_field(v, "profile")?;
        Ok(ProfilePayload { profile })
    }

    /// Writes the value as a JSON document.
    pub fn to_value(&self) -> (v: Value)
        ensures
            value_view(v) == self@.to_json(),
    {
        let mut obj = value_object();
        object_insert(&mut obj, "profile", value_str(self.profile.as_str()));
        obj
    }
}

/// A value is read back from its own document as it was.
pub proof fn lemma_profile_payload_round_trip(x: ProfilePayloadView)
    ensures
        ProfilePayloadView::of_json(x.to_json()) == Ok::<ProfilePayloadView, DecodeError>(x),
{
    broadcast use {lemma_get_with, lemma_get_empty};

    reveal_strlit("profile");
    assert("profile"@.len() == 7);
}

/// The URL to open with an `OpenUrl` command.
#[derive(Debug, PartialEq)]
pub struct UrlPayload {
    /// The URL.
    pub url: String,
}

/// The mathematical value of a [`UrlPayload`].
pub struct UrlPayloadView {
    pub url: Seq<char>,
}

impl View for UrlPayload {
    type V = UrlPayloadView;

    open spec fn view(&self) -> UrlPayloadView {
        UrlPayloadView {
            url: self.url@,
        }
    }
}

impl UrlPayloadView {
    /// The value that a JSON document denotes: an object whose members are read
    /// by name, the first member at fault deciding the error.
    pub open spec fn of_json(j: JsonValue) -> Result<UrlPayloadView, DecodeError> {
        let url = leaf(j, "url", |m: JsonValue| m.as_text());
        if !(j is Object) {
            Err(DecodeError::NotAnObject)
        } else if url is Err {
            Err(url->Err_0)
        } else {
            Ok(UrlPayloadView { url: url->Ok_0 })
        }
    }

    /// The JSON document of the value.
    pub open spec fn to_json(self) -> JsonValue {
        let j = JsonValue::object();
        let j = j.with("url"@, JsonValue::Str(self.url));
        j
    }
}

impl UrlPayload {
    /// Reads the value from a JSON document.
    pub fn from_json(v: &Value) -> (r: Result<Self, DecodeError>)
        ensures
            decoded(r) == UrlPayloadView::of_json(value_view(*v)),
    {
        if !value_is_object(v) {
            return Err(DecodeError::NotAnObject);
        }
        let url = text_field(v, "url")?;
        Ok(UrlPayload { url })
    }

    /// Writes the value as a JSON document.
    pub fn to_value(&self) -> (v: Value)
        ensures
            value_view(v) == self@.to_json(),
    {
        let mut obj = value_object();
        object_insert(&mut obj, "url", value_str(self.url.as_str()));
        obj
    }
}

/// A value is read back from its own document as it was.
pub proof fn lemma_url_payload_round_trip(x: UrlPayloadView)
    ensures
        UrlPayloadView::of_json(x.to_json()) == Ok::<UrlPayloadView, DecodeError>(x),
{
    broadcast use {lemma_get_with, lemma_get_empty};

    reveal_strlit("url");
    assert("url"@.len() == 3);
}

/// What is known of a key when it is pressed or released, or when its settings
/// arrive.
#[derive(Debug, PartialEq)]
pub struct KeyPayload<S> {
    /// The stored settings of the action instance.
    pub settings: S,
    /// The place of the key, or `None` inside a multi action.
    pub coordinates: Option<Coordinates>,
    /// The current state of the action instance.
    pub state: Option<u8>,
    /// The state that the user asked for, inside a multi action.
    pub user_desired_state: Option<u8>,
}

/// The mathematical value of a [`KeyPayload`].
pub struct KeyPayloadView {
    pub settings: JsonValue,
    pub coordinates: Option<Coordinates>,
    pub state: Option<u8>,
    pub user_desired_state: Option<u8>,
}

impl View for KeyPayload<Value> {
    type V = KeyPayloadView;

    open spec fn view(&self) -> KeyPayloadView {
        KeyPayloadView {
            settings: value_view(self.settings),
            coordinates: self.coordinates,
            state: self.state,
            user_desired_state: self.user_desired_state,
        }
    }
}

impl KeyPayloadView {
    /// The value that a JSON document denotes: an object whose members are read
    /// by name, the first member at fault deciding the error.
    pub open spec fn of_json(j: JsonValue) -> Result<KeyPayloadView, DecodeError> {
        let settings = field(j, "settings");
        let coordinates = optional_node(j, "coordinates", |m: JsonValue| Coordinates::of_json(m));
        let state = optional_leaf(j, "state", |m: JsonValue| m.as_u8());
        let user_desired_state = optional_leaf(j, "userDesiredState", |m: JsonValue| m.as_u8());
        if !(j is Object) {
            Err(DecodeError::NotAnObject)
        } else if settings is Err {
            Err(settings->Err_0)
        } else if coordinates is Err {
            Err(coordinates->Err_0)
        } else if state is Err {
            Err(state->Err_0)
        } else if user_desired_state is Err {
            Err(user_desired_state->Err_0)
        } else {
            Ok(
                KeyPayloadView {
                    settings: settings->Ok_0,
                    coordinates: coordinates->Ok_0,
                    state: state->Ok_0,
                    user_desired_state: user_desired_state->Ok_0,
                },
            )
        }
    }

    /// The JSON document of the value.
    pub open spec fn to_json(self) -> JsonValue {
        let j = JsonValue::object();
        let j = j.with("settings"@, self.settings);
        let j = j.with("coordinates"@, match self.coordinates {
            Some(x) => x.to_json(),
            None => JsonValue::Null,
        });
        let j = j.with("state"@, JsonValue::u8_or_null(self.state));
        let j = j.with("userDesiredState"@, JsonValue::u8_or_null(self.user_desired_state));
        j
    }
}

impl KeyPayload<Value> {
    /// Reads the value from a JSON document.
    pub fn from_json(v: &Value) -> (r: Result<Self, DecodeError>)
        ensures
            decoded(r) == KeyPayloadView::of_json(value_view(*v)),
    {
        if !value_is_object(v) {
            return Err(DecodeError::NotAnObject);
        }
        let settings = any_field(v, "settings")?;
        let coordinates = match optional_member(v, "coordinates") {
            Some(m) => Some(Coordinates::from_json(m)?),
            None => None,
        };
        let state = optional_u8_field(v, "state")?;
        let user_desired_state = optional_u8_field(v, "userDesiredState")?;
        Ok(KeyPayload { settings, coordinates, state, user_desired_state })
    }

    /// Writes the value as a JSON document.
    pub fn to_value(&self) -> (v: Value)
        ensures
            value_view(v) == self@.to_json(),
    {
        let mut obj = value_object();
        object_insert(&mut obj, "settings", value_clone(&self.settings));
        object_insert(&mut obj, "coordinates", match &self.coordinates {
            Some(x) => x.to_value(),
            None => value_null(),
        });
        object_insert(&mut obj, "state", u8_or_null(self.state));
        object_insert(&mut obj, "userDesiredState", u8_or_null(self.user_desired_state));
        obj
    }
}

/// A value is read back from its own document as it was.
pub proof fn lemma_key_payload_round_trip(x: KeyPayloadView)
    ensures
        KeyPayloadView::of_json(x.to_json()) == Ok::<KeyPayloadView, DecodeError>(x),
{
    broadcast use {lemma_get_with, lemma_get_empty};

    reveal_strlit("settings");
    assert("settings"@.len() == 8);
    reveal_strlit("coordinates");
    assert("coordinates"@.len() == 11);
    reveal_strlit("state");
    assert("state"@.len() == 5);
    reveal_strlit("userDesiredState");
    assert("userDesiredState"@.len() == 16);
    if x.coordinates is Some {
        lemma_coordinates_round_trip(x.coordinates->Some_0);
    }
}

/// What is known of a key when it appears or disappears.
#[derive(Debug, PartialEq)]
pub struct VisibilityPayload<S> {
    /// The stored settings of the action instance.
    pub settings: S,
    /// The place of the key, or `None` inside a multi action.
    pub coordinates: Option<Coordinates>,
    /// The state of the action instance.
    pub state: Option<u8>,
}

/// The mathematical value of a [`VisibilityPayload`].
pub struct VisibilityPayloadView {
    pub settings: JsonValue,
    pub coordinates: Option<Coordinates>,
    pub state: Option<u8>,
}

impl View for VisibilityPayload<Value> {
    type V = VisibilityPayloadView;

    open spec fn view(&self) -> VisibilityPayloadView {
        VisibilityPayloadView {
            settings: value_view(self.settings),
            coordinates: self.coordinates,
            state: self.state,
        }
    }
}

impl VisibilityPayloadView {
    /// The value that a JSON document denotes: an object whose members are read
    /// by name, the first member at fault deciding the error.
    pub open spec fn of_json(j: JsonValue) -> Result<VisibilityPayloadView, DecodeError> {
        let settings = field(j, "settings");
        let coordinates = optional_node(j, "coordinates", |m: JsonValue| Coordinates::of_json(m));
        let state = optional_leaf(j, "state", |m: JsonValue| m.as_u8());
        if !(j is Object) {
            Err(DecodeError::NotAnObject)
        } else if settings is Err {
            Err(settings->Err_0)
        } else if coordinates is Err {
            Err(coordinates->Err_0)
        } else if state is Err {
            Err(state->Err_0)
        } else {
            Ok(
                VisibilityPayloadView {
                    settings: settings->Ok_0,
                    coordinates: coordinates->Ok_0,
                    state: state->Ok_0,
                },
            )
        }
    }

    /// The JSON document of the value.
    pub open spec fn to_json(self) -> JsonValue {
        let j = JsonValue::object();
        let j = j.with("settings"@, self.settings);
        let j = j.with("coordinates"@, match self.coordinates {
            Some(x) => x.to_json(),
            None => JsonValue::Null,
        });
        let j = j.with("state"@, JsonValue::u8_or_null(self.state));
        j
    }
}

impl VisibilityPayload<Value> {
    /// Reads the value from a JSON document.
    pub fn from_json(v: &Value) -> (r: Result<Self, DecodeError>)
        ensures
            decoded(r) == VisibilityPayloadView::of_json(value_view(*v)),
    {
        if !value_is_object(v) {
            return Err(DecodeError::NotAnObject);
        }
        let settings = any_field(v, "settings")?;
        let coordinates = match optional_member(v, "coordinates") {
            Some(m) => Some(Coordinates::from_json(m)?),
            None => None,
        };
        let state = optional_u8_field(v, "state")?;
        Ok(VisibilityPayload { settings, coordinates, state })
    }

    /// Writes the value as a JSON document.
    pub fn to_value(&self) -> (v: Value)
        ensures
            value_view(v) == self@.to_json(),
    {
        let mut obj = value_object();
        object_insert(&mut obj, "settings", value_clone(&self.settings));
        object_insert(&mut obj, "coordinates", match &self.coordinates {
            Some(x) => x.to_value(),
            None => value_null(),
        });
        object_insert(&mut obj, "state", u8_or_null(self.state));
        obj
    }
}

/// A value is read back from its own document as it was.
pub proof fn lemma_visibility_payload_round_trip(x: VisibilityPayloadView)
    ensures
        VisibilityPayloadView::of_json(x.to_json()) == Ok::<VisibilityPayloadView, DecodeError>(x),
{
    broadcast use {lemma_get_with, lemma_get_empty};

    reveal_strlit("settings");
    assert("settings"@.len() == 8);
    reveal_strlit("coordinates");
    assert("coordinates"@.len() == 11);
    reveal_strlit("state");
    assert("state"@.len() == 5);
    if x.coordinates is Some {
        lemma_coordinates_round_trip(x.coordinates->Some_0);
    }
}

/// How a title is drawn.
#[derive(Debug, PartialEq)]
pub struct TitleParameters {
    /// The name of the font family.
    pub font_family: String,
    /// The font size.
    pub font_size: u8,
    /// Whether the font is bold, italic or both.
    pub font_style: String,
    /// Whether the font is underlined.
    pub font_underline: bool,
    /// Whether the title is shown.
    pub show_title: bool,
    /// The vertical alignment of the title.
    pub title_alignment: Alignment,
    /// The color of the title.
    pub title_color: String,
}

/// The mathematical value of a [`TitleParameters`].
pub struct TitleParametersView {
    pub font_family: Seq<char>,
    pub font_size: u8,
    pub font_style: Seq<char>,
    pub font_underline: bool,
    pub show_title: bool,
    pub title_alignment: Alignment,
    pub title_color: Seq<char>,
}

impl View for TitleParameters {
    type V = TitleParametersView;

    open spec fn view(&self) -> TitleParametersView {
        TitleParametersView {
            font_family: self.font_family@,
            font_size: self.font_size,
            font_style: self.font_style@,
            font_underline: self.font_underline,
            show_title: self.show_title,
            title_alignment: self.title_alignment,
            title_color: self.title_color@,
        }
    }
}

impl TitleParametersView {
    /// The value that a JSON document denotes: an object whose members are read
    /// by name, the first member at fault deciding the error.
    pub open spec fn of_json(j: JsonValue) -> Result<TitleParametersView, DecodeError> {
        let font_family = leaf(j, "fontFamily", |m: JsonValue| m.as_text());
        let font_size = leaf(j, "fontSize", |m: JsonValue| m.as_u8());
        let font_style = leaf(j, "fontStyle", |m: JsonValue| m.as_text());
        let font_underline = leaf(j, "fontUnderline", |m: JsonValue| m.as_bool());
        let show_title = leaf(j, "showTitle", |m: JsonValue| m.as_bool());
        let title_alignment = leaf(j, "titleAlignment", |m: JsonValue| Alignment::of_json(m));
        let title_color = leaf(j, "titleColor", |m: JsonValue| m.as_text());
        if !(j is Object) {
            Err(DecodeError::NotAnObject)
        } else if font_family is Err {
            Err(font_family->Err_0)
        } else if font_size is Err {
            Err(font_size->Err_0)
        } else if font_style is Err {
            Err(font_style->Err_0)
        } else if font_underline is Err {
            Err(font_underline->Err_0)
        } else if show_title is Err {
            Err(show_title->Err_0)
        } else if title_alignment is Err {
            Err(title_alignment->Err_0)
        } else if title_color is Err {
            Err(title_color->Err_0)
        } else {
            Ok(
                TitleParametersView {
                    font_family: font_family->Ok_0,
                    font_size: font_size->Ok_0,
                    font_style: font_style->Ok_0,
                    font_underline: font_underline->Ok_0,
                    show_title: show_title->Ok_0,
                    title_alignment: title_alignment->Ok_0,
                    title_color: title_color->Ok_0,
                },
            )
        }
    }

    /// The JSON document of the value.
    pub open spec fn to_json(self) -> JsonValue {
        let j = JsonValue::object();
        let j = j.with("fontFamily"@, JsonValue::Str(self.font_family));
        let j = j.with("fontSize"@, JsonValue::Int(self.font_size as int));
        let j = j.with("fontStyle"@, JsonValue::Str(self.font_style));
        let j = j.with("fontUnderline"@, JsonValue::Bool(self.font_underline));
        let j = j.with("showTitle"@, JsonValue::Bool(self.show_title));
        let j = j.with("titleAlignment"@, self.title_alignment.to_json());
        let j = j.with("titleColor"@, JsonValue::Str(self.title_color));
        j
    }
}

impl TitleParameters {
    /// Reads the value from a JSON document.
    pub fn from_json(v: &Value) -> (r: Result<Self, DecodeError>)
        ensures
            decoded(r) == TitleParametersView::of_json(value_view(*v)),
    {
        if !value_is_object(v) {
            return Err(DecodeError::NotAnObject);
        }
        let font_family = text_field(v, "fontFamily")?;
        let font_size = u8_field(v, "fontSize")?;
        let font_style = text_field(v, "fontStyle")?;
        let font_underline = bool_field(v, "fontUnderline")?;
        let show_title = bool_field(v, "showTitle")?;
        let title_alignment = match Alignment::from_json(member(v, "titleAlignment")?) {
            Some(x) => x,
            None => return Err(DecodeError::Invalid("titleAlignment")),
        };
        let title_color = text_field(v, "titleColor")?;
        Ok(
            TitleParameters {
                font_family,
                font_size,
                font_style,
                font_underline,
                show_title,
                title_alignment,
                title_color,
            },
        )
    }

    /// Writes the value as a JSON document.
    pub fn to_value(&self) -> (v: Value)
        ensures
            value_view(v) == self@.to_json(),
    {
        let mut obj = value_object();
        object_insert(&mut obj, "fontFamily", value_str(self.font_family.as_str()));
        object_insert(&mut obj, "fontSize", value_u64(self.font_size as u64));
        object_insert(&mut obj, "fontStyle", value_str(self.font_style.as_str()));
        object_insert(&mut obj, "fontUnderline", value_bool(self.font_underline));
        object_insert(&mut obj, "showTitle", value_bool(self.show_title));
        object_insert(&mut obj, "titleAlignment", self.title_alignment.to_value());
        object_insert(&mut obj, "titleColor", value_str(self.title_color.as_str()));
        obj
    }
}

/// A value is read back from its own document as it was.
pub proof fn lemma_title_parameters_round_trip(x: TitleParametersView)
    ensures
        TitleParametersView::of_json(x.to_json()) == Ok::<TitleParametersView, DecodeError>(x),
{
    broadcast use {lemma_get_with, lemma_get_empty};

    reveal_strlit("fontFamily");
    assert("fontFamily"@.len() == 10);
    reveal_strlit("fontSize");
    assert("fontSize"@.len() == 8);
    reveal_strlit("fontStyle");
    assert("fontStyle"@.len() == 9);
    reveal_strlit("fontUnderline");
    assert("fontUnderline"@.len() == 13);
    reveal_strlit("showTitle");
    assert("showTitle"@.len() == 9);
    reveal_strlit("titleAlignment");
    assert("titleAlignment"@.len() == 14);
    reveal_strlit("titleColor");
    assert("titleColor"@.len() == 10);
    assert("fontFamily"@[0] != "titleColor"@[0]);
    assert("fontStyle"@[0] != "showTitle"@[0]);
    lemma_alignment_round_trip(x.title_alignment);
}

/// The new title of a key.
#[derive(Debug, PartialEq)]
pub struct TitleParametersPayload<S> {
    /// The stored settings of the action instance.
    pub settings: S,
    /// The place of the key.
    pub coordinates: Coordinates,
    /// The state of the action instance.
    pub state: Option<u8>,
    /// The new title.
    pub title: String,
    /// How the title is drawn.
    pub title_parameters: TitleParameters,
}

/// The mathematical value of a [`TitleParametersPayload`].
pub struct TitleParametersPayloadView {
    pub settings: JsonValue,
    pub coordinates: Coordinates,
    pub state: Option<u8>,
    pub title: Seq<char>,
    pub title_parameters: TitleParametersView,
}

impl View for TitleParametersPayload<Value> {
    type V = TitleParametersPayloadView;

    open spec fn view(&self) -> TitleParametersPayloadView {
        TitleParametersPayloadView {
            settings: value_view(self.settings),
            coordinates: self.coordinates,
            state: self.state,
            title: self.title@,
            title_parameters: self.title_parameters@,
        }
    }
}

impl TitleParametersPayloadView {
    /// The value that a JSON document denotes: an object whose members are read
    /// by name, the first member at fault deciding the error.
    pub open spec fn of_json(j: JsonValue) -> Result<TitleParametersPayloadView, DecodeError> {
        let settings = field(j, "settings");
        let coordinates = node(j, "coordinates", |m: JsonValue| Coordinates::of_json(m));
        let state = optional_leaf(j, "state", |m: JsonValue| m.as_u8());
        let title = leaf(j, "title", |m: JsonValue| m.as_text());
        let title_parameters = node(
            j,
            "titleParameters",
            |m: JsonValue| TitleParametersView::of_json(m),
        );
        if !(j is Object) {
            Err(DecodeError::NotAnObject)
        } else if settings is Err {
            Err(settings->Err_0)
        } else if coordinates is Err {
            Err(coordinates->Err_0)
        } else if state is Err {
            Err(state->Err_0)
        } else if title is Err {
            Err(title->Err_0)
        } else if title_parameters is Err {
            Err(title_parameters->Err_0)
        } else {
            Ok(
                TitleParametersPayloadView {
                    settings: settings->Ok_0,
                    coordinates: coordinates->Ok_0,
                    state: state->Ok_0,
                    title: title->Ok_0,
                    title_parameters: title_parameters->Ok_0,
                },
            )
        }
    }

    /// The JSON document of the value.
    pub open spec fn to_json(self) -> JsonValue {
        let j = JsonValue::object();
        let j = j.with("settings"@, self.settings);
        let j = j.with("coordinates"@, self.coordinates.to_json());
        let j = j.with("state"@, JsonValue::u8_or_null(self.state));
        let j = j.with("title"@, JsonValue::Str(self.title));
        let j = j.with("titleParameters"@, self.title_parameters.to_json());
        j
    }
}

impl TitleParametersPayload<Value> {
    /// Reads the value from a JSON document.
    pub fn from_json(v: &Value) -> (r: Result<Self, DecodeError>)
        ensures
            decoded(r) == TitleParametersPayloadView::of_json(value_view(*v)),
    {
        if !value_is_object(v) {
            return Err(DecodeError::NotAnObject);
        }
        let settings = any_field(v, "settings")?;
        let coordinates = Coordinates::from_json(member(v, "coordinates")?)?;
        let state = optional_u8_field(v, "state")?;
        let title = text_field(v, "title")?;
        let title_parameters = TitleParameters::from_json(member(v, "titleParameters")?)?;
        Ok(TitleParametersPayload { settings, coordinates, state, title, title_parameters })
    }

    /// Writes the value as a JSON document.
    pub fn to_value(&self) -> (v: Value)
        ensures
            value_view(v) == self@.to_json(),
    {
        let mut obj = value_object();
        object_insert(&mut obj, "settings", value_clone(&self.settings));
        object_insert(&mut obj, "coordinates", self.coordinates.to_value());
        object_insert(&mut obj, "state", u8_or_null(self.state));
        object_insert(&mut obj, "title", value_str(self.title.as_str()));
        object_insert(&mut obj, "titleParameters", self.title_parameters.to_value());
        obj
    }
}

/// A value is read back from its own document as it was.
pub proof fn lemma_title_parameters_payload_round_trip(x: TitleParametersPayloadView)
    ensures
        TitleParametersPayloadView::of_json(x.to_json()) == Ok::<
            TitleParametersPayloadView,
            DecodeError,
        >(x),
{
    broadcast use {lemma_get_with, lemma_get_empty};

    reveal_strlit("settings");
    assert("settings"@.len() == 8);
    reveal_strlit("coordinates");
    assert("coordinates"@.len() == 11);
    reveal_strlit("state");
    assert("state"@.len() == 5);
    reveal_strlit("title");
    assert("title"@.len() == 5);
    reveal_strlit("titleParameters");
    assert("titleParameters"@.len() == 15);
    assert("state"@[0] != "title"@[0]);
    lemma_coordinates_round_trip(x.coordinates);
    lemma_title_parameters_round_trip(x.title_parameters);
}

/// The new global settings.
#[derive(Debug, PartialEq)]
pub struct GlobalSettingsPayload<G> {
    /// The stored settings of the plugin.
    pub settings: G,
}

/// The mathematical value of a [`GlobalSettingsPayload`].
pub struct GlobalSettingsPayloadView {
    pub settings: JsonValue,
}

impl View for GlobalSettingsPayload<Value> {
    type V = GlobalSettingsPayloadView;

    open spec fn view(&self) -> GlobalSettingsPayloadView {
        GlobalSettingsPayloadView {
            settings: value_view(self.settings),
        }
    }
}

impl GlobalSettingsPayloadView {
    /// The value that a JSON document denotes: an object whose members are read
    /// by name, the first member at fault deciding the error.
    pub open spec fn of_json(j: JsonValue) -> Result<GlobalSettingsPayloadView, DecodeError> {
        let settings = field(j, "settings");
        if !(j is Object) {
            Err(DecodeError::NotAnObject)
        } else if settings is Err {
            Err(settings->Err_0)
        } else {
            Ok(GlobalSettingsPayloadView { settings: settings->Ok_0 })
        }
    }

    /// The JSON document of the value.
    pub open spec fn to_json(self) -> JsonValue {
        let j = JsonValue::object();
        let j = j.with("settings"@, self.settings);
        j
    }
}

impl GlobalSettingsPayload<Value> {
    /// Reads the value from a JSON document.
    pub fn from_json(v: &Value) -> (r: Result<Self, DecodeError>)
        ensures
            decoded(r) == GlobalSettingsPayloadView::of_json(value_view(*v)),
    {
        if !value_is_object(v) {
            return Err(DecodeError::NotAnObject);
        }
        let settings = any_field(v, "settings")?;
        Ok(GlobalSettingsPayload { settings })
    }

    /// Writes the value as a JSON document.
    pub fn to_value(&self) -> (v: Value)
        ensures
            value_view(v) == self@.to_json(),
    {
        let mut obj = value_object();
        object_insert(&mut obj, "settings", value_clone(&self.settings));
        obj
    }
}

/// A value is read back from its own document as it was.
pub proof fn lemma_global_settings_payload_round_trip(x: GlobalSettingsPayloadView)
    ensures
        GlobalSettingsPayloadView::of_json(x.to_json()) == Ok::<
            GlobalSettingsPayloadView,
            DecodeError,
        >(x),
{
    broadcast use {lemma_get_with, lemma_get_empty};

    reveal_strlit("settings");
    assert("settings"@.len() == 8);
}

/// A line for the log of the host software.
#[derive(Debug, PartialEq)]
pub struct LogMessagePayload {
    /// The text of the line.
    pub message: String,
}

/// The mathematical value of a [`LogMessagePayload`].
pub struct LogMessagePayloadView {
    pub message: Seq<char>,
}

impl View for LogMessagePayload {
    type V = LogMessagePayloadView;

    open spec fn view(&self) -> LogMessagePayloadView {
        LogMessagePayloadView {
            message: self.message@,
        }
    }
}

impl LogMessagePayloadView {
    /// The value that a JSON document denotes: an object whose members are read
    /// by name, the first member at fault deciding the error.
    pub open spec fn of_json(j: JsonValue) -> Result<LogMessagePayloadView, DecodeError> {
        let message = leaf(j, "message", |m: JsonValue| m.as_text());
        if !(j is Object) {
            Err(DecodeError::NotAnObject)
        } else if message is Err {
            Err(message->Err_0)
        } else {
            Ok(LogMessagePayloadView { message: message->Ok_0 })
        }
    }

    /// The JSON document of the value.
    pub open spec fn to_json(self) -> JsonValue {
        let j = JsonValue::object();
        let j = j.with("message"@, JsonValue::Str(self.message));
        j
    }
}

impl LogMessagePayload {
    /// Reads the value from a JSON document.
    pub fn from_json(v: &Value) -> (r: Result<Self, DecodeError>)
        ensures
            decoded(r) == LogMessagePayloadView::of_json(value_view(*v)),
    {
        if !value_is_object(v) {
            return Err(DecodeError::NotAnObject);
        }
        let message = text_field(v, "message")?;
        Ok(LogMessagePayload { message })
    }

    /// Writes the value as a JSON document.
    pub fn to_value(&self) -> (v: Value)
        ensures
            value_view(v) == self@.to_json(),
    {
        let mut obj = value_object();
        object_insert(&mut obj, "message", value_str(self.message.as_str()));
        obj
    }
}

/// A value is read back from its own document as it was.
pub proof fn lemma_log_message_payload_round_trip(x: LogMessagePayloadView)
    ensures
        LogMessagePayloadView::of_json(x.to_json()) == Ok::<LogMessagePayloadView, DecodeError>(x),
{
    broadcast use {lemma_get_with, lemma_get_empty};

    reveal_strlit("message");
    assert("message"@.len() == 7);
}

/// The layout to show on the touch display.
#[derive(Debug, PartialEq)]
pub struct SetFeedbackLayoutPayload {
    /// The name of a built-in layout, or the path of a layout file.
    pub layout: String,
}

/// The mathematical value of a [`SetFeedbackLayoutPayload`].
pub struct SetFeedbackLayoutPayloadView {
    pub layout: Seq<char>,
}

impl View for SetFeedbackLayoutPayload {
    type V = SetFeedbackLayoutPayloadView;

    open spec fn view(&self) -> SetFeedbackLayoutPayloadView {
        SetFeedbackLayoutPayloadView {
            layout: self.layout@,
        }
    }
}

impl SetFeedbackLayoutPayloadView {
    /// The value that a JSON document denotes: an object whose members are read
    /// by name, the first member at fault deciding the error.
    pub open spec fn of_json(j: JsonValue) -> Result<SetFeedbackLayoutPayloadView, DecodeError> {
        let layout = leaf(j, "layout", |m: JsonValue| m.as_text());
        if !(j is Object) {
            Err(DecodeError::NotAnObject)
        } else if layout is Err {
            Err(layout->Err_0)
        } else {
            Ok(SetFeedbackLayoutPayloadView { layout: layout->Ok_0 })
        }
    }

    /// The JSON document of the value.
    pub open spec fn to_json(self) -> JsonValue {
        let j = JsonValue::object();
        let j = j.with("layout"@, JsonValue::Str(self.layout));
        j
    }
}

impl SetFeedbackLayoutPayload {
    /// Reads the value from a JSON document.
    pub fn from_json(v: &Value) -> (r: Result<Self, DecodeError>)
        ensures
            decoded(r) == SetFeedbackLayoutPayloadView::of_json(value_view(*v)),
    {
        if !value_is_object(v) {
            return Err(DecodeError::NotAnObject);
        }
        let layout = text_field(v, "layout")?;
        Ok(SetFeedbackLayoutPayload { layout })
    }

    /// Writes the value as a JSON document.
    pub fn to_value(&self) -> (v: Value)
        ensures
            value_view(v) == self@.to_json(),
    {
        let mut obj = value_object();
        object_insert(&mut obj, "layout", value_str(self.layout.as_str()));
        obj
    }
}

/// A value is read back from its own document as it was.
pub proof fn lemma_set_feedback_layout_payload_round_trip(x: SetFeedbackLayoutPayloadView)
    ensures
        SetFeedbackLayoutPayloadView::of_json(x.to_json()) == Ok::<
            SetFeedbackLayoutPayloadView,
            DecodeError,
        >(x),
{
    broadcast use {lemma_get_with, lemma_get_empty};

    reveal_strlit("layout");
    assert("layout"@.len() == 6);
}

/// What the interactions with a dial and its display are described as.
#[derive(Debug, PartialEq)]
pub struct SetTriggerDescriptionPayload {
    /// The long touch on the display.
    pub long_touch: Option<String>,
    /// The push of the dial.
    pub push: Option<String>,
    /// The rotation of the dial.
    pub rotate: Option<String>,
    /// The touch on the display.
    pub touch: Option<String>,
}

/// The mathematical value of a [`SetTriggerDescriptionPayload`].
pub struct SetTriggerDescriptionPayloadView {
    pub long_touch: Option<Seq<char>>,
    pub push: Option<Seq<char>>,
    pub rotate: Option<Seq<char>>,
    pub touch: Option<Seq<char>>,
}

impl View for SetTriggerDescriptionPayload {
    type V = SetTriggerDescriptionPayloadView;

    open spec fn view(&self) -> SetTriggerDescriptionPayloadView {
        SetTriggerDescriptionPayloadView {
            long_touch: text_of(self.long_touch),
            push: text_of(self.push),
            rotate: text_of(self.rotate),
            touch: text_of(self.touch),
        }
    }
}

impl SetTriggerDescriptionPayloadView {
    /// The value that a JSON document denotes: an object whose members are read
    /// by name, the first member at fault deciding the error.
    pub open spec fn of_json(j: JsonValue) -> Result<
        SetTriggerDescriptionPayloadView,
        DecodeError,
    > {
        let long_touch = optional_leaf(j, "longTouch", |m: JsonValue| m.as_text());
        let push = optional_leaf(j, "push", |m: JsonValue| m.as_text());
        let rotate = optional_leaf(j, "rotate", |m: JsonValue| m.as_text());
        let touch = optional_leaf(j, "touch", |m: JsonValue| m.as_text());
        if !(j is Object) {
            Err(DecodeError::NotAnObject)
        } else if long_touch is Err {
            Err(long_touch->Err_0)
        } else if push is Err {
            Err(push->Err_0)
        } else if rotate is Err {
            Err(rotate->Err_0)
        } else if touch is Err {
            Err(touch->Err_0)
        } else {
            Ok(
                SetTriggerDescriptionPayloadView {
                    long_touch: long_touch->Ok_0,
                    push: push->Ok_0,
                    rotate: rotate->Ok_0,
                    touch: touch->Ok_0,
                },
            )
        }
    }

    /// The JSON document of the value.
    pub open spec fn to_json(self) -> JsonValue {
        let j = JsonValue::object();
        let j = j.with("longTouch"@, JsonValue::text_or_null(self.long_touch));
        let j = j.with("push"@, JsonValue::text_or_null(self.push));
        let j = j.with("rotate"@, JsonValue::text_or_null(self.rotate));
        let j = j.with("touch"@, JsonValue::text_or_null(self.touch));
        j
    }
}

impl SetTriggerDescriptionPayload {
    /// Reads the value from a JSON document.
    pub fn from_json(v: &Value) -> (r: Result<Self, DecodeError>)
        ensures
            decoded(r) == SetTriggerDescriptionPayloadView::of_json(value_view(*v)),
    {
        if !value_is_object(v) {
            return Err(DecodeError::NotAnObject);
        }
        let long_touch = optional_text_field(v, "longTouch")?;
        let push = optional_text_field(v, "push")?;
        let rotate = optional_text_field(v, "rotate")?;
        let touch = optional_text_field(v, "touch")?;
        Ok(SetTriggerDescriptionPayload { long_touch, push, rotate, touch })
    }

    /// Writes the value as a JSON document.
    pub fn to_value(&self) -> (v: Value)
        ensures
            value_view(v) == self@.to_json(),
    {
        let mut obj = value_object();
        object_insert(&mut obj, "longTouch", text_or_null(&self.long_touch));
        object_insert(&mut obj, "push", text_or_null(&self.push));
        object_insert(&mut obj, "rotate", text_or_null(&self.rotate));
        object_insert(&mut obj, "touch", text_or_null(&self.touch));
        obj
    }
}

/// A value is read back from its own document as it was.
pub proof fn lemma_set_trigger_description_payload_round_trip(x: SetTriggerDescriptionPayloadView)
    ensures
        SetTriggerDescriptionPayloadView::of_json(x.to_json()) == Ok::<
            SetTriggerDescriptionPayloadView,
            DecodeError,
        >(x),
{
    broadcast use {lemma_get_with, lemma_get_empty};

    reveal_strlit("longTouch");
    assert("longTouch"@.len() == 9);
    reveal_strlit("push");
    assert("push"@.len() == 4);
    reveal_strlit("rotate");
    assert("rotate"@.len() == 6);
    reveal_strlit("touch");
    assert("touch"@.len() == 5);
}

/// What is known of a tap on the touch display.
#[derive(Debug, PartialEq)]
pub struct TouchTapPayload<S> {
    /// The stored settings of the action instance.
    pub settings: S,
    /// The place of the action.
    pub coordinates: Option<Coordinates>,
    /// Where the display was touched, within the slot of the action.
    pub tap_pos: (u8, u8),
    /// Whether the tap was a long one.
    pub hold: bool,
}

/// The mathematical value of a [`TouchTapPayload`].
pub struct TouchTapPayloadView {
    pub settings: JsonValue,
    pub coordinates: Option<Coordinates>,
    pub tap_pos: (u8, u8),
    pub hold: bool,
}

impl View for TouchTapPayload<Value> {
    type V = TouchTapPayloadView;

    open spec fn view(&self) -> TouchTapPayloadView {
        TouchTapPayloadView {
            settings: value_view(self.settings),
            coordinates: self.coordinates,
            tap_pos: self.tap_pos,
            hold: self.hold,
        }
    }
}

impl TouchTapPayloadView {
    /// The value that a JSON document denotes: an object whose members are read
    /// by name, the first member at fault deciding the error.
    pub open spec fn of_json(j: JsonValue) -> Result<TouchTapPayloadView, DecodeError> {
        let settings = field(j, "settings");
        let coordinates = optional_node(j, "coordinates", |m: JsonValue| Coordinates::of_json(m));
        let tap_pos = leaf(j, "tapPos", |m: JsonValue| m.as_u8_pair());
        let hold = leaf(j, "hold", |m: JsonValue| m.as_bool());
        if !(j is Object) {
            Err(DecodeError::NotAnObject)
        } else if settings is Err {
            Err(settings->Err_0)
        } else if coordinates is Err {
            Err(coordinates->Err_0)
        } else if tap_pos is Err {
            Err(tap_pos->Err_0)
        } else if hold is Err {
            Err(hold->Err_0)
        } else {
            Ok(
                TouchTapPayloadView {
                    settings: settings->Ok_0,
                    coordinates: coordinates->Ok_0,
                    tap_pos: tap_pos->Ok_0,
                    hold: hold->Ok_0,
                },
            )
        }
    }

    /// The JSON document of the value.
    pub open spec fn to_json(self) -> JsonValue {
        let j = JsonValue::object();
        let j = j.with("settings"@, self.settings);
        let j = j.with("coordinates"@, match self.coordinates {
            Some(x) => x.to_json(),
            None => JsonValue::Null,
        });
        let j = j.with("tapPos"@, JsonValue::u8_pair(self.tap_pos));
        let j = j.with("hold"@, JsonValue::Bool(self.hold));
        j
    }
}

impl TouchTapPayload<Value> {
    /// Reads the value from a JSON document.
    pub fn from_json(v: &Value) -> (r: Result<Self, DecodeError>)
        ensures
            decoded(r) == TouchTapPayloadView::of_json(value_view(*v)),
    {
        if !value_is_object(v) {
            return Err(DecodeError::NotAnObject);
        }
        let settings = any_field(v, "settings")?;
        let coordinates = match optional_member(v, "coordinates") {
            Some(m) => Some(Coordinates::from_json(m)?),
            None => None,
        };
        let tap_pos = match read_u8_pair(member(v, "tapPos")?) {
            Some(x) => x,
            None => return Err(DecodeError::Invalid("tapPos")),
        };
        let hold = bool_field(v, "hold")?;
        Ok(TouchTapPayload { settings, coordinates, tap_pos, hold })
    }

    /// Writes the value as a JSON document.
    pub fn to_value(&self) -> (v: Value)
        ensures
            value_view(v) == self@.to_json(),
    {
        let mut obj = value_object();
        object_insert(&mut obj, "settings", value_clone(&self.settings));
        object_insert(&mut obj, "coordinates", match &self.coordinates {
            Some(x) => x.to_value(),
            None => value_null(),
        });
        object_insert(&mut obj, "tapPos", u8_pair(self.tap_pos));
        object_insert(&mut obj, "hold", value_bool(self.hold));
        obj
    }
}

/// A value is read back from its own document as it was.
pub proof fn lemma_touch_tap_payload_round_trip(x: TouchTapPayloadView)
    ensures
        TouchTapPayloadView::of_json(x.to_json()) == Ok::<TouchTapPayloadView, DecodeError>(x),
{
    broadcast use {lemma_get_with, lemma_get_empty};

    reveal_strlit("settings");
    assert("settings"@.len() == 8);
    reveal_strlit("coordinates");
    assert("coordinates"@.len() == 11);
    reveal_strlit("tapPos");
    assert("tapPos"@.len() == 6);
    reveal_strlit("hold");
    assert("hold"@.len() == 4);
    if x.coordinates is Some {
        lemma_coordinates_round_trip(x.coordinates->Some_0);
    }
}

/// What is known of a dial when it is pressed.
#[derive(Debug, PartialEq)]
pub struct DialDownPayload<S> {
    /// The stored settings of the action instance.
    pub settings: S,
    /// The place of the action.
    pub coordinates: Option<Coordinates>,
}

/// The mathematical value of a [`DialDownPayload`].
pub struct DialDownPayloadView {
    pub settings: JsonValue,
    pub coordinates: Option<Coordinates>,
}

impl View for DialDownPayload<Value> {
    type V = DialDownPayloadView;

    open spec fn view(&self) -> DialDownPayloadView {
        DialDownPayloadView {
            settings: value_view(self.settings),
            coordinates: self.coordinates,
        }
    }
}

impl DialDownPayloadView {
    /// The value that a JSON document denotes: an object whose members are read
    /// by name, the first member at fault deciding the error.
    pub open spec fn of_json(j: JsonValue) -> Result<DialDownPayloadView, DecodeError> {
        let settings = field(j, "settings");
        let coordinates = optional_node(j, "coordinates", |m: JsonValue| Coordinates::of_json(m));
        if !(j is Object) {
            Err(DecodeError::NotAnObject)
        } else if settings is Err {
            Err(settings->Err_0)
        } else if coordinates is Err {
            Err(coordinates->Err_0)
        } else {
            Ok(DialDownPayloadView { settings: settings->Ok_0, coordinates: coordinates->Ok_0 })
        }
    }

    /// The JSON document of the value.
    pub open spec fn to_json(self) -> JsonValue {
        let j = JsonValue::object();
        let j = j.with("settings"@, self.settings);
        let j = j.with("coordinates"@, match self.coordinates {
            Some(x) => x.to_json(),
            None => JsonValue::Null,
        });
        j
    }
}

impl DialDownPayload<Value> {
    /// Reads the value from a JSON document.
    pub fn from_json(v: &Value) -> (r: Result<Self, DecodeError>)
        ensures
            decoded(r) == DialDownPayloadView::of_json(value_view(*v)),
    {
        if !value_is_object(v) {
            return Err(DecodeError::NotAnObject);
        }
        let settings = any_field(v, "settings")?;
        let coordinates = match optional_member(v, "coordinates") {
            Some(m) => Some(Coordinates::from_json(m)?),
            None => None,
        };
        Ok(DialDownPayload { settings, coordinates })
    }

    /// Writes the value as a JSON document.
    pub fn to_value(&self) -> (v: Value)
        ensures
            value_view(v) == self@.to_json(),
    {
        let mut obj = value_object();
        object_insert(&mut obj, "settings", value_clone(&self.settings));
        object_insert(&mut obj, "coordinates", match &self.coordinates {
            Some(x) => x.to_value(),
            None => value_null(),
        });
        obj
    }
}

/// A value is read back from its own document as it was.
pub proof fn lemma_dial_down_payload_round_trip(x: DialDownPayloadView)
    ensures
        DialDownPayloadView::of_json(x.to_json()) == Ok::<DialDownPayloadView, DecodeError>(x),
{
    broadcast use {lemma_get_with, lemma_get_empty};

    reveal_strlit("settings");
    assert("settings"@.len() == 8);
    reveal_strlit("coordinates");
    assert("coordinates"@.len() == 11);
    if x.coordinates is Some {
        lemma_coordinates_round_trip(x.coordinates->Some_0);
    }
}

/// What is known of a dial when it is released.
#[derive(Debug, PartialEq)]
pub struct DialUpPayload<S> {
    /// The stored settings of the action instance.
    pub settings: S,
    /// The place of the action.
    pub coordinates: Option<Coordinates>,
}

/// The mathematical value of a [`DialUpPayload`].
pub struct DialUpPayloadView {
    pub settings: JsonValue,
    pub coordinates: Option<Coordinates>,
}

impl View for DialUpPayload<Value> {
    type V = DialUpPayloadView;

    open spec fn view(&self) -> DialUpPayloadView {
        DialUpPayloadView {
            settings: value_view(self.settings),
            coordinates: self.coordinates,
        }
    }
}

impl DialUpPayloadView {
    /// The value that a JSON document denotes: an object whose members are read
    /// by name, the first member at fault deciding the error.
    pub open spec fn of_json(j: JsonValue) -> Result<DialUpPayloadView, DecodeError> {
        let settings = field(j, "settings");
        let coordinates = optional_node(j, "coordinates", |m: JsonValue| Coordinates::of_json(m));
        if !(j is Object) {
            Err(DecodeError::NotAnObject)
        } else if settings is Err {
            Err(settings->Err_0)
        } else if coordinates is Err {
            Err(coordinates->Err_0)
        } else {
            Ok(DialUpPayloadView { settings: settings->Ok_0, coordinates: coordinates->Ok_0 })
        }
    }

    /// The JSON document of the value.
    pub open spec fn to_json(self) -> JsonValue {
        let j = JsonValue::object();
        let j = j.with("settings"@, self.settings);
        let j = j.with("coordinates"@, match self.coordinates {
            Some(x) => x.to_json(),
            None => JsonValue::Null,
        });
        j
    }
}

impl DialUpPayload<Value> {
    /// Reads the value from a JSON document.
    pub fn from_json(v: &Value) -> (r: Result<Self, DecodeError>)
        ensures
            decoded(r) == DialUpPayloadView::of_json(value_view(*v)),
    {
        if !value_is_object(v) {
            return Err(DecodeError::NotAnObject);
        }
        let settings = any_field(v, "settings")?;
        let coordinates = match optional_member(v, "coordinates") {
            Some(m) => Some(Coordinates::from_json(m)?),
            None => None,
        };
        Ok(DialUpPayload { settings, coordinates })
    }

    /// Writes the value as a JSON document.
    pub fn to_value(&self) -> (v: Value)
        ensures
            value_view(v) == self@.to_json(),
    {
        let mut obj = value_object();
        object_insert(&mut obj, "settings", value_clone(&self.settings));
        object_insert(&mut obj, "coordinates", match &self.coordinates {
            Some(x) => x.to_value(),
            None => value_null(),
        });
        obj
    }
}

/// A value is read back from its own document as it was.
pub proof fn lemma_dial_up_payload_round_trip(x: DialUpPayloadView)
    ensures
        DialUpPayloadView::of_json(x.to_json()) == Ok::<DialUpPayloadView, DecodeError>(x),
{
    broadcast use {lemma_get_with, lemma_get_empty};

    reveal_strlit("settings");
    assert("settings"@.len() == 8);
    reveal_strlit("coordinates");
    assert("coordinates"@.len() == 11);
    if x.coordinates is Some {
        lemma_coordinates_round_trip(x.coordinates->Some_0);
    }
}

/// What is known of a dial when it is turned.
#[derive(Debug, PartialEq)]
pub struct DialRotatePayload<S> {
    /// The stored settings of the action instance.
    pub settings: S,
    /// The place of the action.
    pub coordinates: Option<Coordinates>,
    /// The ticks of the rotation, positive for clockwise.
    pub ticks: i64,
    /// Whether the dial was held down while it turned.
    pub pressed: bool,
}

/// The mathematical value of a [`DialRotatePayload`].
pub struct DialRotatePayloadView {
    pub settings: JsonValue,
    pub coordinates: Option<Coordinates>,
    pub ticks: i64,
    pub pressed: bool,
}

impl View for DialRotatePayload<Value> {
    type V = DialRotatePayloadView;

    open spec fn view(&self) -> DialRotatePayloadView {
        DialRotatePayloadView {
            settings: value_view(self.settings),
            coordinates: self.coordinates,
            ticks: self.ticks,
            pressed: self.pressed,
        }
    }
}

impl DialRotatePayloadView {
    /// The value that a JSON document denotes: an object whose members are read
    /// by name, the first member at fault deciding the error.
    pub open spec fn of_json(j: JsonValue) -> Result<DialRotatePayloadView, DecodeError> {
        let settings = field(j, "settings");
        let coordinates = optional_node(j, "coordinates", |m: JsonValue| Coordinates::of_json(m));
        let ticks = leaf(j, "ticks", |m: JsonValue| m.as_i64());
        let pressed = leaf(j, "pressed", |m: JsonValue| m.as_bool());
        if !(j is Object) {
            Err(DecodeError::NotAnObject)
        } else if settings is Err {
            Err(settings->Err_0)
        } else if coordinates is Err {
            Err(coordinates->Err_0)
        } else if ticks is Err {
            Err(ticks->Err_0)
        } else if pressed is Err {
            Err(pressed->Err_0)
        } else {
            Ok(
                DialRotatePayloadView {
                    settings: settings->Ok_0,
                    coordinates: coordinates->Ok_0,
                    ticks: ticks->Ok_0,
                    pressed: pressed->Ok_0,
                },
            )
        }
    }

    /// The JSON document of the value.
    pub open spec fn to_json(self) -> JsonValue {
        let j = JsonValue::object();
        let j = j.with("settings"@, self.settings);
        let j = j.with("coordinates"@, match self.coordinates {
            Some(x) => x.to_json(),
            None => JsonValue::Null,
        });
        let j = j.with("ticks"@, JsonValue::Int(self.ticks as int));
        let j = j.with("pressed"@, JsonValue::Bool(self.pressed));
        j
    }
}

impl DialRotatePayload<Value> {
    /// Reads the value from a JSON document.
    pub fn from_json(v: &Value) -> (r: Result<Self, DecodeError>)
        ensures
            decoded(r) == DialRotatePayloadView::of_json(value_view(*v)),
    {
        if !value_is_object(v) {
            return Err(DecodeError::NotAnObject);
        }
        let settings = any_field(v, "settings")?;
        let coordinates = match optional_member(v, "coordinates") {
            Some(m) => Some(Coordinates::from_json(m)?),
            None => None,
        };
        let ticks = i64_field(v, "ticks")?;
        let pressed = bool_field(v, "pressed")?;
        Ok(DialRotatePayload { settings, coordinates, ticks, pressed })
    }

    /// Writes the value as a JSON document.
    pub fn to_value(&self) -> (v: Value)
        ensures
            value_view(v) == self@.to_json(),
    {
        let mut obj = value_object();
        object_insert(&mut obj, "settings", value_clone(&self.settings));
        object_insert(&mut obj, "coordinates", match &self.coordinates {
            Some(x) => x.to_value(),
            None => value_null(),
        });
        object_insert(&mut obj, "ticks", value_i64(self.ticks));
        object_insert(&mut obj, "pressed", value_bool(self.pressed));
        obj
    }
}

/// A value is read back from its own document as it was.
pub proof fn lemma_dial_rotate_payload_round_trip(x: DialRotatePayloadView)
    ensures
        DialRotatePayloadView::of_json(x.to_json()) == Ok::<DialRotatePayloadView, DecodeError>(x),
{
    broadcast use {lemma_get_with, lemma_get_empty};

    reveal_strlit("settings");
    assert("settings"@.len() == 8);
    reveal_strlit("coordinates");
    assert("coordinates"@.len() == 11);
    reveal_strlit("ticks");
    assert("ticks"@.len() == 5);
    reveal_strlit("pressed");
    assert("pressed"@.len() == 7);
    if x.coordinates is Some {
        lemma_coordinates_round_trip(x.coordinates->Some_0);
    }
}

/// What is known of a hardware device.
#[derive(Debug, PartialEq)]
pub struct DeviceInfo {
    /// The name that the user gave the device.
    pub name: Option<String>,
    /// The size of the device.
    pub size: DeviceSize,
    /// The kind of the device, or `None` where the host software runs without
    /// one.
    pub _type: Option<DeviceType>,
}

/// The mathematical value of a [`DeviceInfo`].
pub struct DeviceInfoView {
    pub name: Option<Seq<char>>,
    pub size: DeviceSize,
    pub _type: Option<DeviceType>,
}

impl View for DeviceInfo {
    type V = DeviceInfoView;

    open spec fn view(&self) -> DeviceInfoView {
        DeviceInfoView {
            name: text_of(self.name),
            size: self.size,
            _type: self._type,
        }
    }
}

impl DeviceInfoView {
    /// The value that a JSON document denotes: an object whose members are read
    /// by name, the first member at fault deciding the error.
    pub open spec fn of_json(j: JsonValue) -> Result<DeviceInfoView, DecodeError> {
        let name = optional_leaf(j, "name", |m: JsonValue| m.as_text());
        let size = node(j, "size", |m: JsonValue| DeviceSize::of_json(m));
        let _type = optional_leaf(j, "type", |m: JsonValue| DeviceType::of_json(m));
        if !(j is Object) {
            Err(DecodeError::NotAnObject)
        } else if name is Err {
            Err(name->Err_0)
        } else if size is Err {
            Err(size->Err_0)
        } else if _type is Err {
            Err(_type->Err_0)
        } else {
            Ok(DeviceInfoView { name: name->Ok_0, size: size->Ok_0, _type: _type->Ok_0 })
        }
    }

    /// The JSON document of the value.
    pub open spec fn to_json(self) -> JsonValue {
        let j = JsonValue::object();
        let j = j.with("name"@, JsonValue::text_or_null(self.name));
        let j = j.with("size"@, self.size.to_json());
        let j = j.with("type"@, match self._type {
            Some(x) => x.to_json(),
            None => JsonValue::Null,
        });
        j
    }

    /// Whether the value is the one that its own document is read as.
    pub open spec fn canonical(self) -> bool {
        self._type is Some ==> self._type->Some_0.canonical()
    }
}

impl DeviceInfo {
    /// Reads the value from a JSON document.
    pub fn from_json(v: &Value) -> (r: Result<Self, DecodeError>)
        ensures
            decoded(r) == DeviceInfoView::of_json(value_view(*v)),
    {
        if !value_is_object(v) {
            return Err(DecodeError::NotAnObject);
        }
        let name = optional_text_field(v, "name")?;
        let size = DeviceSize::from_json(member(v, "size")?)?;
        let _type = match optional_member(v, "type") {
            Some(m) => match DeviceType::from_json(m) {
                Some(x) => Some(x),
                None => return Err(DecodeError::Invalid("type")),
            },
            None => None,
        };
        Ok(DeviceInfo { name, size, _type })
    }

    /// Writes the value as a JSON document.
    pub fn to_value(&self) -> (v: Value)
        ensures
            value_view(v) == self@.to_json(),
    {
        let mut obj = value_object();
        object_insert(&mut obj, "name", text_or_null(&self.name));
        object_insert(&mut obj, "size", self.size.to_value());
        object_insert(&mut obj, "type", match &self._type {
            Some(x) => x.to_value(),
            None => value_null(),
        });
        obj
    }
}

/// A canonical value is read back from its own document as it was.
pub proof fn lemma_device_info_round_trip(x: DeviceInfoView)
    requires
        x.canonical(),
    ensures
        DeviceInfoView::of_json(x.to_json()) == Ok::<DeviceInfoView, DecodeError>(x),
{
    broadcast use {lemma_get_with, lemma_get_empty};

    reveal_strlit("name");
    assert("name"@.len() == 4);
    reveal_strlit("size");
    assert("size"@.len() == 4);
    reveal_strlit("type");
    assert("type"@.len() == 4);
    assert("name"@[0] != "size"@[0]);
    assert("name"@[0] != "type"@[0]);
    assert("size"@[0] != "type"@[0]);
    lemma_device_size_round_trip(x.size);
    if x._type is Some {
        lemma_device_type_round_trip(x._type->Some_0);
    }
}

/// A monitored application that was launched or has ended.
#[derive(Debug, PartialEq)]
pub struct ApplicationPayload {
    /// The name of the application.
    pub application: String,
}

/// The mathematical value of a [`ApplicationPayload`].
pub struct ApplicationPayloadView {
    pub application: Seq<char>,
}

impl View for ApplicationPayload {
    type V = ApplicationPayloadView;

    open spec fn view(&self) -> ApplicationPayloadView {
        ApplicationPayloadView {
            application: self.application@,
        }
    }
}

impl ApplicationPayloadView {
    /// The value that a JSON document denotes: an object whose members are read
    /// by name, the first member at fault deciding the error.
    pub open spec fn of_json(j: JsonValue) -> Result<ApplicationPayloadView, DecodeError> {
        let application = leaf(j, "application", |m: JsonValue| m.as_text());
        if !(j is Object) {
            Err(DecodeError::NotAnObject)
        } else if application is Err {
            Err(application->Err_0)
        } else {
            Ok(ApplicationPayloadView { application: application->Ok_0 })
        }
    }

    /// The JSON document of the value.
    pub open spec fn to_json(self) -> JsonValue {
        let j = JsonValue::object();
        let j = j.with("application"@, JsonValue::Str(self.application));
        j
    }
}

impl ApplicationPayload {
    /// Reads the value from a JSON document.
    pub fn from_json(v: &Value) -> (r: Result<Self, DecodeError>)
        ensures
            decoded(r) == ApplicationPayloadView::of_json(value_view(*v)),
    {
        if !value_is_object(v) {
            return Err(DecodeError::NotAnObject);
        }
        let application = text_field(v, "application")?;
        Ok(ApplicationPayload { application })
    }

    /// Writes the value as a JSON document.
    pub fn to_value(&self) -> (v: Value)
        ensures
            value_view(v) == self@.to_json(),
    {
        let mut obj = value_object();
        object_insert(&mut obj, "application", value_str(self.application.as_str()));
        obj
    }
}

/// A value is read back from its own document as it was.
pub proof fn lemma_application_payload_round_trip(x: ApplicationPayloadView)
    ensures
        ApplicationPayloadView::of_json(x.to_json()) == Ok::<ApplicationPayloadView, DecodeError>(x),
{
    broadcast use {lemma_get_with, lemma_get_empty};

    reveal_strlit("application");
    assert("application"@.len() == 11);
}

} // verus!
