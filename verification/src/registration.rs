//! What the host software hands to a plugin when it starts it.

use crate::color::{Color};
use crate::json::{
    decoded, json_parse, json_text, leaf, lemma_get_empty, lemma_get_with, member, node,
    object_insert, optional_leaf, optional_member, optional_text_field, parse_value, print_value,
    text_field, text_of, text_or_null, u8_field, value_array, value_as_array, value_as_str,
    value_is_object, value_null, value_object, value_str, value_u64, value_view, values_view,
    BadMessage, DecodeError, JsonValue,
};
use crate::payload::{
    lemma_device_size_round_trip, lemma_device_type_round_trip, DeviceSize, DeviceType,
};
use serde_json::Value;
use vstd::prelude::*;

verus! {

/// The language that the host software runs in.
#[derive(Debug, Clone, PartialEq, Eq)]
pub enum Language {
    /// English.
    English,
    /// French.
    French,
    /// German.
    German,
    /// Spanish.
    Spanish,
    /// Japanese.
    Japanese,
    /// Chinese as written in China; the one language here that is tied to a country.
    ChineseChina,
    /// A language that this catalogue has no name for, by its code.
    Unknown(String),
}

/// The mathematical value of a [`Language`].
pub enum LanguageView {
    English,
    French,
    German,
    Spanish,
    Japanese,
    ChineseChina,
    Unknown(Seq<char>),
}

impl View for Language {
    type V = LanguageView;

    open spec fn view(&self) -> LanguageView {
        match *self {
            Language::English => LanguageView::English,
            Language::French => LanguageView::French,
            Language::German => LanguageView::German,
            Language::Spanish => LanguageView::Spanish,
            Language::Japanese => LanguageView::Japanese,
            Language::ChineseChina => LanguageView::ChineseChina,
            Language::Unknown(s) => LanguageView::Unknown(s@),
        }
    }
}

impl LanguageView {
    /// The word that stands for the value on the wire.
    pub open spec fn text(self) -> Seq<char> {
        match self {
            LanguageView::English => "en"@,
            LanguageView::French => "fr"@,
            LanguageView::German => "de"@,
            LanguageView::Spanish => "es"@,
            LanguageView::Japanese => "ja"@,
            LanguageView::ChineseChina => "zh_cn"@,
            LanguageView::Unknown(s) => s,
        }
    }

    /// The value that a word stands for.
    pub open spec fn of_text(s: Seq<char>) -> LanguageView {
        if s == "en"@ {
            LanguageView::English
        } else if s == "fr"@ {
            LanguageView::French
        } else if s == "de"@ {
            LanguageView::German
        } else if s == "es"@ {
            LanguageView::Spanish
        } else if s == "ja"@ {
            LanguageView::Japanese
        } else if s == "zh_cn"@ {
            LanguageView::ChineseChina
        } else {
            LanguageView::Unknown(s)
        }
    }

    /// Whether the value is the one that its own word is read as: every
    /// value but `Unknown` of a word that has a name.
    pub open spec fn canonical(self) -> bool {
        Self::of_text(self.text()) == self
    }

    /// The value that a JSON document denotes: any string.
    pub open spec fn of_json(j: JsonValue) -> Option<LanguageView> {
        match j.as_text() {
            Some(s) => Some(Self::of_text(s)),
            None => None,
        }
    }

    /// The JSON document of the value, a string.
    pub open spec fn to_json(self) -> JsonValue {
        JsonValue::Str(self.text())
    }
}

impl Language {
    /// The word that stands for the value on the wire.
    pub fn as_text(&self) -> (s: &str)
        ensures
            s@ == self@.text(),
    {
        match self {
            Language::English => "en",
            Language::French => "fr",
            Language::German => "de",
            Language::Spanish => "es",
            Language::Japanese => "ja",
            Language::ChineseChina => "zh_cn",
            Language::Unknown(s) => s.as_str(),
        }
    }

    /// The value that a word stands for.
    pub fn from_text(s: &str) -> (r: Language)
        ensures
            r@ == LanguageView::of_text(s@),
    {
        if s.eq("en") {
            Language::English
        } else if s.eq("fr") {
            Language::French
        } else if s.eq("de") {
            Language::German
        } else if s.eq("es") {
            Language::Spanish
        } else if s.eq("ja") {
            Language::Japanese
        } else if s.eq("zh_cn") {
            Language::ChineseChina
        } else {
            Language::Unknown(s.to_owned())
        }
    }

    /// Reads the value from a JSON document.
    pub fn from_json(v: &Value) -> (r: Option<Language>)
        ensures
            match r {
                Some(x) => LanguageView::of_json(value_view(*v)) == Some(x@),
                None => LanguageView::of_json(value_view(*v)) is None,
            },
    {
        match value_as_str(v) {
            Some(s) => Some(Self::from_text(s)),
            None => None,
        }
    }

    /// Writes the value as a JSON document.
    pub fn to_value(&self) -> (v: Value)
        ensures
            value_view(v) == self@.to_json(),
    {
        value_str(self.as_text())
    }
}

/// Every word is written back from the value it is read as.
pub proof fn lemma_language_text(s: Seq<char>)
    ensures
        LanguageView::of_text(s).text() == s,
        LanguageView::of_text(s).canonical(),
{
}

/// A canonical value is read back from its own document as it was.
pub proof fn lemma_language_round_trip(x: LanguageView)
    requires
        x.canonical(),
    ensures
        LanguageView::of_json(x.to_json()) == Some(x),
{
}

/// The platform that the host software runs on.
#[derive(Debug, Clone, PartialEq, Eq)]
pub enum Platform {
    /// macOS.
    Mac,
    /// Windows.
    Windows,
    /// A platform that this catalogue has no name for, by its code.
    Unknown(String),
}

/// The mathematical value of a [`Platform`].
pub enum PlatformView {
    Mac,
    Windows,
    Unknown(Seq<char>),
}

impl View for Platform {
    type V = PlatformView;

    open spec fn view(&self) -> PlatformView {
        match *self {
            Platform::Mac => PlatformView::Mac,
            Platform::Windows => PlatformView::Windows,
            Platform::Unknown(s) => PlatformView::Unknown(s@),
        }
    }
}

impl PlatformView {
    /// The word that stands for the value on the wire.
    pub open spec fn text(self) -> Seq<char> {
        match self {
            PlatformView::Mac => "mac"@,
            PlatformView::Windows => "windows"@,
            PlatformView::Unknown(s) => s,
        }
    }

    /// The value that a word stands for.
    pub open spec fn of_text(s: Seq<char>) -> PlatformView {
        if s == "mac"@ {
            PlatformView::Mac
        } else if s == "windows"@ {
            PlatformView::Windows
        } else {
            PlatformView::Unknown(s)
        }
    }

    /// Whether the value is the one that its own word is read as: every
    /// value but `Unknown` of a word that has a name.
    pub open spec fn canonical(self) -> bool {
        Self::of_text(self.text()) == self
    }

    /// The value that a JSON document denotes: any string.
    pub open spec fn of_json(j: JsonValue) -> Option<PlatformView> {
        match j.as_text() {
            Some(s) => Some(Self::of_text(s)),
            None => None,
        }
    }

    /// The JSON document of the value, a string.
    pub open spec fn to_json(self) -> JsonValue {
        JsonValue::Str(self.text())
    }
}

impl Platform {
    /// The word that stands for the value on the wire.
    pub fn as_text(&self) -> (s: &str)
        ensures
            s@ == self@.text(),
    {
        match self {
            Platform::Mac => "mac",
            Platform::Windows => "windows",
            Platform::Unknown(s) => s.as_str(),
        }
    }

    /// The value that a word stands for.
    pub fn from_text(s: &str) -> (r: Platform)
        ensures
            r@ == PlatformView::of_text(s@),
    {
        if s.eq("mac") {
            Platform::Mac
        } else if s.eq("windows") {
            Platform::Windows
        } else {
            Platform::Unknown(s.to_owned())
        }
    }

    /// Reads the value from a JSON document.
    pub fn from_json(v: &Value) -> (r: Option<Platform>)
        ensures
            match r {
                Some(x) => PlatformView::of_json(value_view(*v)) == Some(x@),
                None => PlatformView::of_json(value_view(*v)) is None,
            },
    {
        match value_as_str(v) {
            Some(s) => Some(Self::from_text(s)),
            None => None,
        }
    }

    /// Writes the value as a JSON document.
    pub fn to_value(&self) -> (v: Value)
        ensures
            value_view(v) == self@.to_json(),
    {
        value_str(self.as_text())
    }
}

/// Every word is written back from the value it is read as.
pub proof fn lemma_platform_text(s: Seq<char>)
    ensures
        PlatformView::of_text(s).text() == s,
        PlatformView::of_text(s).canonical(),
{
}

/// A canonical value is read back from its own document as it was.
pub proof fn lemma_platform_round_trip(x: PlatformView)
    requires
        x.canonical(),
    ensures
        PlatformView::of_json(x.to_json()) == Some(x),
{
}

/// A device that was connected when the plugin was started.
#[derive(Debug, PartialEq)]
pub struct RegistrationInfoDevice {
    /// The id of the device.
    pub id: String,
    /// The name that the user gave the device.
    pub name: Option<String>,
    /// The size of the device.
    pub size: DeviceSize,
    /// The kind of the device.
    pub _type: Option<DeviceType>,
}

/// The mathematical value of a [`RegistrationInfoDevice`].
pub struct RegistrationInfoDeviceView {
    pub id: Seq<char>,
    pub name: Option<Seq<char>>,
    pub size: DeviceSize,
    pub _type: Option<DeviceType>,
}

impl View for RegistrationInfoDevice {
    type V = RegistrationInfoDeviceView;

    open spec fn view(&self) -> RegistrationInfoDeviceView {
        RegistrationInfoDeviceView {
            id: self.id@,
            name: text_of(self.name),
            size: self.size,
            _type: self._type,
        }
    }
}

impl RegistrationInfoDeviceView {
    /// The value that a JSON document denotes: an object whose members are read
    /// by name, the first member at fault deciding the error.
    pub open spec fn of_json(j: JsonValue) -> Result<RegistrationInfoDeviceView, DecodeError> {
        let id = leaf(j, "id", |m: JsonValue| m.as_text());
        let name = optional_leaf(j, "name", |m: JsonValue| m.as_text());
        let size = node(j, "size", |m: JsonValue| DeviceSize::of_json(m));
        let _type = optional_leaf(j, "type", |m: JsonValue| DeviceType::of_json(m));
        if !(j is Object) {
            Err(DecodeError::NotAnObject)
        } else if id is Err {
            Err(id->Err_0)
        } else if name is Err {
            Err(name->Err_0)
        } else if size is Err {
            Err(size->Err_0)
        } else if _type is Err {
            Err(_type->Err_0)
        } else {
            Ok(
                RegistrationInfoDeviceView {
                    id: id->Ok_0,
                    name: name->Ok_0,
                    size: size->Ok_0,
                    _type: _type->Ok_0,
                },
            )
        }
    }

    /// The JSON document of the value.
    pub open spec fn to_json(self) -> JsonValue {
        let j = JsonValue::object();
        let j = j.with("id"@, JsonValue::Str(self.id));
        let j = j.with("name"@, JsonValue::text_or_null(self.name));
        let j = j.with("size"@, self.size.to_json());
        let j = j.with("type"@, match self._type {
            Some(x) => x.to_json(),
            None => JsonValue::Null,
        });
        j
    }

    /// Whether the value is the one that its own document is read as.
    pub open spec fn canonical(self) -> bool {
        self._type is Some ==> self._type->Some_0.canonical()
    }

    /// The values that an array of documents denotes, the first element at
    /// fault deciding the error.
    pub open spec fn all_of(items: Seq<JsonValue>) -> Result<
        Seq<RegistrationInfoDeviceView>,
        DecodeError,
    >
        decreases items.len(),
    {
        if items.len() == 0 {
            Ok(Seq::empty())
        } else {
            match (Self::all_of(items.drop_last()), Self::of_json(items.last())) {
                (Err(e), _) => Err(e),
                (Ok(_), Err(e)) => Err(e),
                (Ok(front), Ok(x)) => Ok(front.push(x)),
            }
        }
    }

    /// The values that a JSON array denotes.
    pub open spec fn all_of_json(j: JsonValue) -> Result<
        Seq<RegistrationInfoDeviceView>,
        DecodeError,
    > {
        match j {
            JsonValue::Array(items) => Self::all_of(items),
            _ => Err(DecodeError::Invalid("devices")),
        }
    }

    /// The JSON array of a sequence of values.
    pub open spec fn all_to_json(all: Seq<RegistrationInfoDeviceView>) -> JsonValue {
        JsonValue::Array(Seq::new(all.len(), |i: int| all[i].to_json()))
    }
}

impl RegistrationInfoDevice {
    /// Reads the value from a JSON document.
    pub fn from_json(v: &Value) -> (r: Result<Self, DecodeError>)
        ensures
            decoded(r) == RegistrationInfoDeviceView::of_json(value_view(*v)),
    {
        if !value_is_object(v) {
            return Err(DecodeError::NotAnObject);
        }
        let id = text_field(v, "id")?;
        let name = optional_text_field(v, "name")?;
        let size = DeviceSize::from_json(member(v, "size")?)?;
        let _type = match optional_member(v, "type") {
            Some(m) => match DeviceType::from_json(m) {
                Some(x) => Some(x),
                None => return Err(DecodeError::Invalid("type")),
            },
            None => None,
        };
        Ok(RegistrationInfoDevice { id, name, size, _type })
    }

    /// Writes the value as a JSON document.
    pub fn to_value(&self) -> (v: Value)
        ensures
            value_view(v) == self@.to_json(),
    {
        let mut obj = value_object();
        object_insert(&mut obj, "id", value_str(self.id.as_str()));
        object_insert(&mut obj, "name", text_or_null(&self.name));
        object_insert(&mut obj, "size", self.size.to_value());
        object_insert(&mut obj, "type", match &self._type {
            Some(x) => x.to_value(),
            None => value_null(),
        });
        obj
    }

    /// Reads the values of a JSON array.
    pub fn all_from_json(v: &Value) -> (r: Result<Vec<RegistrationInfoDevice>, DecodeError>)
        ensures
            match r {
                Ok(all) => RegistrationInfoDeviceView::all_of_json(value_view(*v)) == Ok::<
                    Seq<RegistrationInfoDeviceView>,
                    DecodeError,
                >(Seq::new(all@.len(), |i: int| all@[i]@)),
                Err(e) => RegistrationInfoDeviceView::all_of_json(value_view(*v)) == Err::<
                    Seq<RegistrationInfoDeviceView>,
                    DecodeError,
                >(e),
            },
    {
        let items = match value_as_array(v) {
            Some(items) => items,
            None => return Err(DecodeError::Invalid("devices")),
        };
        let mut all: Vec<RegistrationInfoDevice> = Vec::new();
        let mut i: usize = 0;
        assert(Seq::new(all@.len(), |k: int| all@[k]@) =~= Seq::<RegistrationInfoDeviceView>::empty());
        while i < items.len()
            invariant
                i <= items.len(),
                value_view(*v) == JsonValue::Array(values_view(items@)),
                RegistrationInfoDeviceView::all_of(values_view(items@).take(i as int)) == Ok::<
                    Seq<RegistrationInfoDeviceView>,
                    DecodeError,
                >(Seq::new(all@.len(), |k: int| all@[k]@)),
            decreases items.len() - i,
        {
            let ghost front = values_view(items@).take(i as int);
            let ghost next = values_view(items@).take(i + 1);
            assert(next.drop_last() == front);
            assert(next.last() == value_view(items@[i as int]));
            assert(values_view(items@)[i as int] == value_view(items@[i as int]));
            let ghost before = Seq::new(all@.len(), |k: int| all@[k]@);
            match RegistrationInfoDevice::from_json(&items[i]) {
                Ok(x) => {
                    all.push(x);
                    assert(Seq::new(all@.len(), |k: int| all@[k]@) == before.push(x@));
                },
                Err(e) => {
                    proof {
                        RegistrationInfoDeviceView::lemma_all_of_fails(values_view(items@), i as int);
                    }
                    return Err(e);
                },
            }
            i = i + 1;
        }
        assert(values_view(items@).take(i as int) == values_view(items@));
        Ok(all)
    }

    /// Writes the values as a JSON array.
    pub fn all_to_value(all: &Vec<RegistrationInfoDevice>) -> (v: Value)
        ensures
            value_view(v) == RegistrationInfoDeviceView::all_to_json(Seq::new(all@.len(), |i: int| all@[i]@)),
    {
        let mut items: Vec<Value> = Vec::new();
        let mut i: usize = 0;
        while i < all.len()
            invariant
                i <= all.len(),
                items@.len() == i,
                forall|k: int| 0 <= k < i ==> value_view(#[trigger] items@[k]) == all@[k]@.to_json(),
            decreases all.len() - i,
        {
            items.push(all[i].to_value());
            i = i + 1;
        }
        let ghost views = Seq::new(all@.len(), |i: int| all@[i]@);
        assert(values_view(items@) =~= Seq::new(views.len(), |i: int| views[i].to_json()));
        value_array(items)
    }
}

impl RegistrationInfoDeviceView {
    /// Where an element is at fault, so is every longer stretch of the array,
    /// with the error of the first such element.
    pub proof fn lemma_all_of_fails(items: Seq<JsonValue>, at: int)
        requires
            0 <= at < items.len(),
            Self::all_of(items.take(at)) is Ok,
            Self::of_json(items[at]) is Err,
        ensures
            Self::all_of(items) == Err::<Seq<RegistrationInfoDeviceView>, DecodeError>(
                Self::of_json(items[at])->Err_0,
            ),
        decreases items.len(),
    {
        if at == items.len() - 1 {
            assert(items.drop_last() == items.take(at));
        } else {
            assert(items.drop_last().take(at) == items.take(at));
            Self::lemma_all_of_fails(items.drop_last(), at);
        }
    }
}

/// A canonical value is read back from its own document as it was.
pub proof fn lemma_registration_info_device_round_trip(x: RegistrationInfoDeviceView)
    requires
        x.canonical(),
    ensures
        RegistrationInfoDeviceView::of_json(x.to_json()) == Ok::<
            RegistrationInfoDeviceView,
            DecodeError,
        >(x),
{
    broadcast use {lemma_get_with, lemma_get_empty};

    reveal_strlit("id");
    assert("id"@.len() == 2);
    reveal_strlit("name");
    assert("name"@.len() == 4);
    reveal_strlit("size");
    assert("size"@.len() == 4);
    reveal_strlit("type");
    assert("type"@.len() == 4);
    assert("name"@[0] != "size"@[0]);
    assert("name"@[0] != "type"@[0]);
    assert("size"@[0] != "type"@[0]);
    lemma_device_size_round_trip(x.size);
    if x._type is Some {
        lemma_device_type_round_trip(x._type->Some_0);
    }
}

/// What is known of the host software.
#[derive(Debug, PartialEq)]
pub struct RegistrationInfoApplication {
    /// The language it runs in.
    pub language: Language,
    /// The platform it runs on.
    pub platform: Platform,
    /// Its version.
    pub version: String,
}

/// The mathematical value of a [`RegistrationInfoApplication`].
pub struct RegistrationInfoApplicationView {
    pub language: LanguageView,
    pub platform: PlatformView,
    pub version: Seq<char>,
}

impl View for RegistrationInfoApplication {
    type V = RegistrationInfoApplicationView;

    open spec fn view(&self) -> RegistrationInfoApplicationView {
        RegistrationInfoApplicationView {
            language: self.language@,
            platform: self.platform@,
            version: self.version@,
        }
    }
}

impl RegistrationInfoApplicationView {
    /// The value that a JSON document denotes: an object whose members are read
    /// by name, the first member at fault deciding the error.
    pub open spec fn of_json(j: JsonValue) -> Result<RegistrationInfoApplicationView, DecodeError> {
        let language = leaf(j, "language", |m: JsonValue| LanguageView::of_json(m));
        let platform = leaf(j, "platform", |m: JsonValue| PlatformView::of_json(m));
        let version = leaf(j, "version", |m: JsonValue| m.as_text());
        if !(j is Object) {
            Err(DecodeError::NotAnObject)
        } else if language is Err {
            Err(language->Err_0)
        } else if platform is Err {
            Err(platform->Err_0)
        } else if version is Err {
            Err(version->Err_0)
        } else {
            Ok(
                RegistrationInfoApplicationView {
                    language: language->Ok_0,
                    platform: platform->Ok_0,
                    version: version->Ok_0,
                },
            )
        }
    }

    /// The JSON document of the value.
    pub open spec fn to_json(self) -> JsonValue {
        let j = JsonValue::object();
        let j = j.with("language"@, self.language.to_json());
        let j = j.with("platform"@, self.platform.to_json());
        let j = j.with("version"@, JsonValue::Str(self.version));
        j
    }

    /// Whether the value is the one that its own document is read as.
    pub open spec fn canonical(self) -> bool {
        self.language.canonical() && self.platform.canonical()
    }
}

impl RegistrationInfoApplication {
    /// Reads the value from a JSON document.
    pub fn from_json(v: &Value) -> (r: Result<Self, DecodeError>)
        ensures
            decoded(r) == RegistrationInfoApplicationView::of_json(value_view(*v)),
    {
        if !value_is_object(v) {
            return Err(DecodeError::NotAnObject);
        }
        let language = match Language::from_json(member(v, "language")?) {
            Some(x) => x,
            None => return Err(DecodeError::Invalid("language")),
        };
        let platform = match Platform::from_json(member(v, "platform")?) {
            Some(x) => x,
            None => return Err(DecodeError::Invalid("platform")),
        };
        let version = text_field(v, "version")?;
        Ok(RegistrationInfoApplication { language, platform, version })
    }

    /// Writes the value as a JSON document.
    pub fn to_value(&self) -> (v: Value)
        ensures
            value_view(v) == self@.to_json(),
    {
        let mut obj = value_object();
        object_insert(&mut obj, "language", self.language.to_value());
        object_insert(&mut obj, "platform", self.platform.to_value());
        object_insert(&mut obj, "version", value_str(self.version.as_str()));
        obj
    }
}

/// A canonical value is read back from its own document as it was.
pub proof fn lemma_registration_info_application_round_trip(x: RegistrationInfoApplicationView)
    requires
        x.canonical(),
    ensures
        RegistrationInfoApplicationView::of_json(x.to_json()) == Ok::<
            RegistrationInfoApplicationView,
            DecodeError,
        >(x),
{
    broadcast use {lemma_get_with, lemma_get_empty};

    reveal_strlit("language");
    assert("language"@.len() == 8);
    reveal_strlit("platform");
    assert("platform"@.len() == 8);
    reveal_strlit("version");
    assert("version"@.len() == 7);
    assert("language"@[0] != "platform"@[0]);
    lemma_language_round_trip(x.language);
    lemma_platform_round_trip(x.platform);
}

/// What the host software knows of the plugin.
#[derive(Debug, Clone, PartialEq)]
pub struct RegistrationInfoPlugin {
    /// The version of the plugin, as its manifest gives it.
    pub version: String,
    /// The identifier of the plugin.
    pub uuid: String,
}

/// The mathematical value of a [`RegistrationInfoPlugin`].
pub struct RegistrationInfoPluginView {
    pub version: Seq<char>,
    pub uuid: Seq<char>,
}

impl View for RegistrationInfoPlugin {
    type V = RegistrationInfoPluginView;

    open spec fn view(&self) -> RegistrationInfoPluginView {
        RegistrationInfoPluginView {
            version: self.version@,
            uuid: self.uuid@,
        }
    }
}

impl RegistrationInfoPluginView {
    /// The value that a JSON document denotes: an object whose members are read
    /// by name, the first member at fault deciding the error.
    pub open spec fn of_json(j: JsonValue) -> Result<RegistrationInfoPluginView, DecodeError> {
        let version = leaf(j, "version", |m: JsonValue| m.as_text());
        let uuid = leaf(j, "uuid", |m: JsonValue| m.as_text());
        if !(j is Object) {
            Err(DecodeError::NotAnObject)
        } else if version is Err {
            Err(version->Err_0)
        } else if uuid is Err {
            Err(uuid->Err_0)
        } else {
            Ok(RegistrationInfoPluginView { version: version->Ok_0, uuid: uuid->Ok_0 })
        }
    }

    /// The JSON document of the value.
    pub open spec fn to_json(self) -> JsonValue {
        let j = JsonValue::object();
        let j = j.with("version"@, JsonValue::Str(self.version));
        let j = j.with("uuid"@, JsonValue::Str(self.uuid));
        j
    }
}

impl RegistrationInfoPlugin {
    /// Reads the value from a JSON document.
    pub fn from_json(v: &Value) -> (r: Result<Self, DecodeError>)
        ensures
            decoded(r) == RegistrationInfoPluginView::of_json(value_view(*v)),
    {
        if !value_is_object(v) {
            return Err(DecodeError::NotAnObject);
        }
        let version = text_field(v, "version")?;
        let uuid = text_field(v, "uuid")?;
        Ok(RegistrationInfoPlugin { version, uuid })
    }

    /// Writes the value as a JSON document.
    pub fn to_value(&self) -> (v: Value)
        ensures
            value_view(v) == self@.to_json(),
    {
        let mut obj = value_object();
        object_insert(&mut obj, "version", value_str(self.version.as_str()));
        object_insert(&mut obj, "uuid", value_str(self.uuid.as_str()));
        obj
    }
}

/// A value is read back from its own document as it was.
pub proof fn lemma_registration_info_plugin_round_trip(x: RegistrationInfoPluginView)
    ensures
        RegistrationInfoPluginView::of_json(x.to_json()) == Ok::<
            RegistrationInfoPluginView,
            DecodeError,
        >(x),
{
    broadcast use {lemma_get_with, lemma_get_empty};

    reveal_strlit("version");
    assert("version"@.len() == 7);
    reveal_strlit("uuid");
    assert("uuid"@.len() == 4);
}

/// The colors that the user prefers.
#[derive(Debug, Clone, Copy, PartialEq, Eq)]
pub struct UserColors {
    /// The background of a pressed button.
    pub button_pressed_background_color: Option<Color>,
    /// The border of a pressed button.
    pub button_pressed_border_color: Option<Color>,
    /// The text of a pressed button.
    pub button_pressed_text_color: Option<Color>,
    /// What is disabled.
    pub disabled_color: Option<Color>,
    /// What is highlighted.
    pub highlight_color: Option<Color>,
    /// What the mouse is held down on.
    pub mouse_down_color: Option<Color>,
}

impl UserColors {
    /// The value that a JSON document denotes: an object whose members are read
    /// by name, the first member at fault deciding the error.
    pub open spec fn of_json(j: JsonValue) -> Result<UserColors, DecodeError> {
        let button_pressed_background_color = optional_leaf(
            j,
            "buttonPressedBackgroundColor",
            |m: JsonValue| Color::of_json(m),
        );
        let button_pressed_border_color = optional_leaf(
            j,
            "buttonPressedBorderColor",
            |m: JsonValue| Color::of_json(m),
        );
        let button_pressed_text_color = optional_leaf(
            j,
            "buttonPressedTextColor",
            |m: JsonValue| Color::of_json(m),
        );
        let disabled_color = optional_leaf(j, "disabledColor", |m: JsonValue| Color::of_json(m));
        let highlight_color = optional_leaf(j, "highlightColor", |m: JsonValue| Color::of_json(m));
        let mouse_down_color = optional_leaf(j, "mouseDownColor", |m: JsonValue| Color::of_json(m));
        if !(j is Object) {
            Err(DecodeError::NotAnObject)
        } else if button_pressed_background_color is Err {
            Err(button_pressed_background_color->Err_0)
        } else if button_pressed_border_color is Err {
            Err(button_pressed_border_color->Err_0)
        } else if button_pressed_text_color is Err {
            Err(button_pressed_text_color->Err_0)
        } else if disabled_color is Err {
            Err(disabled_color->Err_0)
        } else if highlight_color is Err {
            Err(highlight_color->Err_0)
        } else if mouse_down_color is Err {
            Err(mouse_down_color->Err_0)
        } else {
            Ok(
                UserColors {
                    button_pressed_background_color: button_pressed_background_color->Ok_0,
                    button_pressed_border_color: button_pressed_border_color->Ok_0,
                    button_pressed_text_color: button_pressed_text_color->Ok_0,
                    disabled_color: disabled_color->Ok_0,
                    highlight_color: highlight_color->Ok_0,
                    mouse_down_color: mouse_down_color->Ok_0,
                },
            )
        }
    }

    /// The JSON document of the value.
    pub open spec fn to_json(self) -> JsonValue {
        let j = JsonValue::object();
        let j = j.with("buttonPressedBackgroundColor"@, match self.button_pressed_background_color {
            Some(x) => x.to_json(),
            None => JsonValue::Null,
        });
        let j = j.with("buttonPressedBorderColor"@, match self.button_pressed_border_color {
            Some(x) => x.to_json(),
            None => JsonValue::Null,
        });
        let j = j.with("buttonPressedTextColor"@, match self.button_pressed_text_color {
            Some(x) => x.to_json(),
            None => JsonValue::Null,
        });
        let j = j.with("disabledColor"@, match self.disabled_color {
            Some(x) => x.to_json(),
            None => JsonValue::Null,
        });
        let j = j.with("highlightColor"@, match self.highlight_color {
            Some(x) => x.to_json(),
            None => JsonValue::Null,
        });
        let j = j.with("mouseDownColor"@, match self.mouse_down_color {
            Some(x) => x.to_json(),
            None => JsonValue::Null,
        });
        j
    }
}

impl UserColors {
    /// Reads the value from a JSON document.
    pub fn from_json(v: &Value) -> (r: Result<Self, DecodeError>)
        ensures
            r == UserColors::of_json(value_view(*v)),
    {
        if !value_is_object(v) {
            return Err(DecodeError::NotAnObject);
        }
        let button_pressed_background_color = match optional_member(v, "buttonPressedBackgroundColor") {
            Some(m) => match Color::from_json(m) {
                Some(x) => Some(x),
                None => return Err(DecodeError::Invalid("buttonPressedBackgroundColor")),
            },
            None => None,
        };
        let button_pressed_border_color = match optional_member(v, "buttonPressedBorderColor") {
            Some(m) => match Color::from_json(m) {
                Some(x) => Some(x),
                None => return Err(DecodeError::Invalid("buttonPressedBorderColor")),
            },
            None => None,
        };
        let button_pressed_text_color = match optional_member(v, "buttonPressedTextColor") {
            Some(m) => match Color::from_json(m) {
                Some(x) => Some(x),
                None => return Err(DecodeError::Invalid("buttonPressedTextColor")),
            },
            None => None,
        };
        let disabled_color = match optional_member(v, "disabledColor") {
            Some(m) => match Color::from_json(m) {
                Some(x) => Some(x),
                None => return Err(DecodeError::Invalid("disabledColor")),
            },
            None => None,
        };
        let highlight_color = match optional_member(v, "highlightColor") {
            Some(m) => match Color::from_json(m) {
                Some(x) => Some(x),
                None => return Err(DecodeError::Invalid("highlightColor")),
            },
            None => None,
        };
        let mouse_down_color = match optional_member(v, "mouseDownColor") {
            Some(m) => match Color::from_json(m) {
                Some(x) => Some(x),
                None => return Err(DecodeError::Invalid("mouseDownColor")),
            },
            None => None,
        };
        Ok(
            UserColors {
                button_pressed_background_color,
                button_pressed_border_color,
                button_pressed_text_color,
                disabled_color,
                highlight_color,
                mouse_down_color,
            },
        )
    }

    /// Writes the value as a JSON document.
    pub fn to_value(&self) -> (v: Value)
        ensures
            value_view(v) == self.to_json(),
    {
        let mut obj = value_object();
        object_insert(&mut obj, "buttonPressedBackgroundColor", match &self.button_pressed_background_color {
            Some(x) => x.to_value(),
            None => value_null(),
        });
        object_insert(&mut obj, "buttonPressedBorderColor", match &self.button_pressed_border_color {
            Some(x) => x.to_value(),
            None => value_null(),
        });
        object_insert(&mut obj, "buttonPressedTextColor", match &self.button_pressed_text_color {
            Some(x) => x.to_value(),
            None => value_null(),
        });
        object_insert(&mut obj, "disabledColor", match &self.disabled_color {
            Some(x) => x.to_value(),
            None => value_null(),
        });
        object_insert(&mut obj, "highlightColor", match &self.highlight_color {
            Some(x) => x.to_value(),
            None => value_null(),
        });
        object_insert(&mut obj, "mouseDownColor", match &self.mouse_down_color {
            Some(x) => x.to_value(),
            None => value_null(),
        });
        obj
    }
}

impl Default for UserColors {
    /// No preference for any color.
    fn default() -> (r: UserColors)
        ensures
            r == (UserColors {
                button_pressed_background_color: None,
                button_pressed_border_color: None,
                button_pressed_text_color: None,
                disabled_color: None,
                highlight_color: None,
                mouse_down_color: None,
            }),
    {
        UserColors {
            button_pressed_background_color: None,
            button_pressed_border_color: None,
            button_pressed_text_color: None,
            disabled_color: None,
            highlight_color: None,
            mouse_down_color: None,
        }
    }
}

/// The surroundings that a plugin is started in.
#[derive(Debug, PartialEq)]
pub struct RegistrationInfo {
    /// The host software.
    pub application: RegistrationInfoApplication,
    /// The plugin.
    pub plugin: RegistrationInfoPlugin,
    /// The pixel ratio of the display.
    pub device_pixel_ratio: u8,
    /// The connected devices.
    pub devices: Vec<RegistrationInfoDevice>,
    /// The colors that the user prefers.
    pub colors: UserColors,
}

/// The mathematical value of a [`RegistrationInfo`].
pub struct RegistrationInfoView {
    pub application: RegistrationInfoApplicationView,
    pub plugin: RegistrationInfoPluginView,
    pub device_pixel_ratio: u8,
    pub devices: Seq<RegistrationInfoDeviceView>,
    pub colors: UserColors,
}

impl View for RegistrationInfo {
    type V = RegistrationInfoView;

    open spec fn view(&self) -> RegistrationInfoView {
        RegistrationInfoView {
            application: self.application@,
            plugin: self.plugin@,
            device_pixel_ratio: self.device_pixel_ratio,
            devices: Seq::new(self.devices@.len(), |i: int| self.devices@[i]@),
            colors: self.colors,
        }
    }
}

impl RegistrationInfoView {
    /// The value that a JSON document denotes: an object whose members are read
    /// by name, the first member at fault deciding the error.
    pub open spec fn of_json(j: JsonValue) -> Result<RegistrationInfoView, DecodeError> {
        let application = node(
            j,
            "application",
            |m: JsonValue| RegistrationInfoApplicationView::of_json(m),
        );
        let plugin = node(j, "plugin", |m: JsonValue| RegistrationInfoPluginView::of_json(m));
        let device_pixel_ratio = leaf(j, "devicePixelRatio", |m: JsonValue| m.as_u8());
        let devices = node(j, "devices", |m: JsonValue| RegistrationInfoDeviceView::all_of_json(m));
        let colors = node(j, "colors", |m: JsonValue| UserColors::of_json(m));
        if !(j is Object) {
            Err(DecodeError::NotAnObject)
        } else if application is Err {
            Err(application->Err_0)
        } else if plugin is Err {
            Err(plugin->Err_0)
        } else if device_pixel_ratio is Err {
            Err(device_pixel_ratio->Err_0)
        } else if devices is Err {
            Err(devices->Err_0)
        } else if colors is Err {
            Err(colors->Err_0)
        } else {
            Ok(
                RegistrationInfoView {
                    application: application->Ok_0,
                    plugin: plugin->Ok_0,
                    device_pixel_ratio: device_pixel_ratio->Ok_0,
                    devices: devices->Ok_0,
                    colors: colors->Ok_0,
                },
            )
        }
    }

    /// The JSON document of the value.
    pub open spec fn to_json(self) -> JsonValue {
        let j = JsonValue::object();
        let j = j.with("application"@, self.application.to_json());
        let j = j.with("plugin"@, self.plugin.to_json());
        let j = j.with("devicePixelRatio"@, JsonValue::Int(self.device_pixel_ratio as int));
        let j = j.with("devices"@, RegistrationInfoDeviceView::all_to_json(self.devices));
        let j = j.with("colors"@, self.colors.to_json());
        j
    }
}

impl RegistrationInfo {
    /// Reads the value from a JSON document.
    pub fn from_json(v: &Value) -> (r: Result<Self, DecodeError>)
        ensures
            decoded(r) == RegistrationInfoView::of_json(value_view(*v)),
    {
        if !value_is_object(v) {
            return Err(DecodeError::NotAnObject);
        }
        let application = RegistrationInfoApplication::from_json(member(v, "application")?)?;
        let plugin = RegistrationInfoPlugin::from_json(member(v, "plugin")?)?;
        let device_pixel_ratio = u8_field(v, "devicePixelRatio")?;
        let devices = RegistrationInfoDevice::all_from_json(member(v, "devices")?)?;
        let colors = UserColors::from_json(member(v, "colors")?)?;
        Ok(RegistrationInfo { application, plugin, device_pixel_ratio, devices, colors })
    }

    /// Writes the value as a JSON document.
    pub fn to_value(&self) -> (v: Value)
        ensures
            value_view(v) == self@.to_json(),
    {
        let mut obj = value_object();
        object_insert(&mut obj, "application", self.application.to_value());
        object_insert(&mut obj, "plugin", self.plugin.to_value());
        object_insert(&mut obj, "devicePixelRatio", value_u64(self.device_pixel_ratio as u64));
        object_insert(&mut obj, "devices", RegistrationInfoDevice::all_to_value(&self.devices));
        object_insert(&mut obj, "colors", self.colors.to_value());
        obj
    }

    /// Reads the value from the text of a startup argument: the text has to be
    /// JSON, and the document the wire form of a value.
    pub fn decode(text: &str) -> (r: Result<Self, BadMessage>)
        ensures
            match r {
                Ok(x) => json_parse(text@) matches Some(j) && RegistrationInfoView::of_json(j) == Ok::<
                    RegistrationInfoView,
                    DecodeError,
                >(x@),
                Err(BadMessage::Syntax(_)) => json_parse(text@) is None,
                Err(BadMessage::Field(e)) => json_parse(text@) matches Some(j) && RegistrationInfoView::of_json(
                    j,
                ) == Err::<RegistrationInfoView, DecodeError>(e),
                Err(BadMessage::Print(_)) => false,
            },
    {
        match parse_value(text) {
            Ok(v) => match Self::from_json(&v) {
                Ok(x) => Ok(x),
                Err(e) => Err(BadMessage::Field(e)),
            },
            Err(e) => Err(BadMessage::Syntax(e)),
        }
    }

    /// Writes the value as the text of one startup argument.
    pub fn encode(&self) -> (r: Result<String, BadMessage>)
        ensures
            match r {
                Ok(text) => json_text(self@.to_json()) == Some(text@),
                Err(BadMessage::Print(_)) => json_text(self@.to_json()) is None,
                Err(_) => false,
            },
    {
        match print_value(&self.to_value()) {
            Ok(text) => Ok(text),
            Err(e) => Err(BadMessage::Print(e)),
        }
    }
}

/// `std::num::ParseIntError`, the diagnostic of a number that could not be
/// read. It is carried along and never looked into.
#[verifier::external_type_specification]
#[verifier::external_body]
pub struct ExParseIntError(std::num::ParseIntError);

/// The port that `u16`'s `FromStr` reads from a text, `None` where it
/// reports an error.
pub uninterp spec fn port_of_text(text: Seq<char>) -> Option<u16>;

/// `str::parse` for a `u16`: the number, or the error of `u16`'s `FromStr`.
#[verifier::external_body]
pub(crate) fn parse_port(text: &str) -> (r: Result<u16, std::num::ParseIntError>)
    ensures
        match r {
            Ok(port) => port_of_text(text@) == Some(port),
            Err(_) => port_of_text(text@) is None,
        },
{
    text.parse::<u16>()
}

/// What a plugin is started with.
#[derive(Debug, PartialEq)]
pub struct RegistrationParams {
    /// The port on which the host software listens for the plugin.
    pub port: u16,
    /// The uuid of the plugin.
    pub uuid: String,
    /// The event name that the plugin registers with.
    pub event: String,
    /// The surroundings that the plugin is started in.
    pub info: RegistrationInfo,
}

/// The mathematical value of a [`RegistrationParams`].
pub struct RegistrationParamsView {
    pub port: u16,
    pub uuid: Seq<char>,
    pub event: Seq<char>,
    pub info: RegistrationInfoView,
}

impl View for RegistrationParams {
    type V = RegistrationParamsView;

    open spec fn view(&self) -> RegistrationParamsView {
        RegistrationParamsView {
            port: self.port,
            uuid: self.uuid@,
            event: self.event@,
            info: self.info@,
        }
    }
}

/// Why a command line does not hold the registration parameters.
#[derive(Debug)]
pub enum RegistrationParamsError {
    /// There is no port.
    NoPort,
    /// The port is no number that fits; holds the diagnostic.
    BadPort(std::num::ParseIntError),
    /// There is no uuid.
    NoUuid,
    /// There is no event name.
    NoEvent,
    /// There is no info.
    NoInfo,
    /// The info could not be read; holds the diagnostic.
    BadInfo(BadMessage),
}

/// The kinds of [`RegistrationParamsError`], with what of the diagnostics
/// is fixed by the command line.
pub enum ParamsFault {
    NoPort,
    BadPort,
    NoUuid,
    NoEvent,
    NoInfo,
    /// The info is not JSON.
    InfoSyntax,
    /// The info is JSON, but not the wire form of a `RegistrationInfo`.
    InfoField(DecodeError),
}

impl RegistrationParamsError {
    /// The kind of the error.
    pub open spec fn fault(self) -> ParamsFault {
        match self {
            RegistrationParamsError::NoPort => ParamsFault::NoPort,
            RegistrationParamsError::BadPort(_) => ParamsFault::BadPort,
            RegistrationParamsError::NoUuid => ParamsFault::NoUuid,
            RegistrationParamsError::NoEvent => ParamsFault::NoEvent,
            RegistrationParamsError::NoInfo => ParamsFault::NoInfo,
            RegistrationParamsError::BadInfo(BadMessage::Field(e)) => ParamsFault::InfoField(e),
            RegistrationParamsError::BadInfo(_) => ParamsFault::InfoSyntax,
        }
    }
}

/// The values that a command line gives to the four options, as they were
/// written.
pub struct Found {
    pub port: Option<Seq<char>>,
    pub uuid: Option<Seq<char>>,
    pub event: Option<Seq<char>>,
    pub info: Option<Seq<char>>,
}

/// What is found in `args` from position `at` on, beyond what was `found`
/// before it.
///
/// An option takes the argument behind it as its value, whatever that is,
/// and an option at the very end has none. Where an option comes twice, the
/// later one counts. Everything else is passed over.
pub open spec fn scan(args: Seq<Seq<char>>, at: int, found: Found) -> Found
    decreases args.len() - at,
{
    if at < 0 || at >= args.len() {
        found
    } else {
        let value = if at + 1 < args.len() {
            Some(args[at + 1])
        } else {
            None
        };
        let behind = if at + 1 < args.len() {
            at + 2
        } else {
            at + 1
        };
        if args[at] == "-port"@ {
            scan(args, behind, Found { port: value, ..found })
        } else if args[at] == "-pluginUUID"@ {
            scan(args, behind, Found { uuid: value, ..found })
        } else if args[at] == "-registerEvent"@ {
            scan(args, behind, Found { event: value, ..found })
        } else if args[at] == "-info"@ {
            scan(args, behind, Found { info: value, ..found })
        } else {
            scan(args, at + 1, found)
        }
    }
}

/// The registration parameters that a command line holds, or the first
/// thing that is wrong with it: the port is looked at first, then the uuid,
/// the event name and the info.
pub open spec fn params_of(args: Seq<Seq<char>>) -> Result<RegistrationParamsView, ParamsFault> {
    let found = scan(args, 0, Found { port: None, uuid: None, event: None, info: None });
    if found.port is None {
        Err(ParamsFault::NoPort)
    } else if port_of_text(found.port->Some_0) is None {
        Err(ParamsFault::BadPort)
    } else if found.uuid is None {
        Err(ParamsFault::NoUuid)
    } else if found.event is None {
        Err(ParamsFault::NoEvent)
    } else if found.info is None {
        Err(ParamsFault::NoInfo)
    } else {
        match json_parse(found.info->Some_0) {
            None => Err(ParamsFault::InfoSyntax),
            Some(j) => match RegistrationInfoView::of_json(j) {
                Err(e) => Err(ParamsFault::InfoField(e)),
                Ok(info) => Ok(
                    RegistrationParamsView {
                        port: port_of_text(found.port->Some_0)->Some_0,
                        uuid: found.uuid->Some_0,
                        event: found.event->Some_0,
                        info,
                    },
                ),
            },
        }
    }
}

/// The texts of the arguments.
pub open spec fn args_text(args: Seq<String>) -> Seq<Seq<char>> {
    Seq::new(args.len(), |i: int| args[i]@)
}

/// The text of a slice that may be absent.
pub open spec fn slice_text(s: Option<&str>) -> Option<Seq<char>> {
    match s {
        Some(s) => Some(s@),
        None => None,
    }
}

impl RegistrationParams {
    /// Pulls the registration parameters out of a command line.
    pub fn from_args(args: &Vec<String>) -> (r: Result<RegistrationParams, RegistrationParamsError>)
        ensures
            match r {
                Ok(params) => params_of(args_text(args@)) == Ok::<
                    RegistrationParamsView,
                    ParamsFault,
                >(params@),
                Err(e) => params_of(args_text(args@)) == Err::<RegistrationParamsView, ParamsFault>(
                    e.fault(),
                ) && !(e matches RegistrationParamsError::BadInfo(BadMessage::Print(_))),
            },
    {
        let mut port: Option<&str> = None;
        let mut uuid: Option<&str> = None;
        let mut event: Option<&str> = None;
        let mut info: Option<&str> = None;
        let ghost texts = args_text(args@);
        let ghost nothing = Found { port: None, uuid: None, event: None, info: None };
        let mut at: usize = 0;
        while at < args.len()
            invariant
                at <= args.len(),
                texts == args_text(args@),
                scan(
                    texts,
                    at as int,
                    Found {
                        port: slice_text(port),
                        uuid: slice_text(uuid),
                        event: slice_text(event),
                        info: slice_text(info),
                    },
                ) == scan(texts, 0, nothing),
            decreases args.len() - at,
        {
            let flag = args[at].as_str();
            let value = if at + 1 < args.len() {
                Some(args[at + 1].as_str())
            } else {
                None
            };
            let step: usize = if at + 1 < args.len() {
                2
            } else {
                1
            };
            if flag.eq("-port") {
                port = value;
                at = at + step;
            } else if flag.eq("-pluginUUID") {
                uuid = value;
                at = at + step;
            } else if flag.eq("-registerEvent") {
                event = value;
                at = at + step;
            } else if flag.eq("-info") {
                info = value;
                at = at + step;
            } else {
                at = at + 1;
            }
        }
        let port = match port {
            Some(text) => match parse_port(text) {
                Ok(port) => port,
                Err(e) => return Err(RegistrationParamsError::BadPort(e)),
            },
            None => return Err(RegistrationParamsError::NoPort),
        };
        let uuid = match uuid {
            Some(text) => text.to_owned(),
            None => return Err(RegistrationParamsError::NoUuid),
        };
        let event = match event {
            Some(text) => text.to_owned(),
            None => return Err(RegistrationParamsError::NoEvent),
        };
        let info = match info {
            Some(text) => match RegistrationInfo::decode(text) {
                Ok(info) => info,
                Err(e) => return Err(RegistrationParamsError::BadInfo(e)),
            },
            None => return Err(RegistrationParamsError::NoInfo),
        };
        Ok(RegistrationParams { port, uuid, event, info })
    }
}

} // verus!
