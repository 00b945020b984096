//! The records a successful reply is read into, and the shape of the JSON
//! document they are read from. A measurement is kept as the decimal text
//! that serde_json writes for the JSON number, so the caller picks the
//! numeric type it reads the value into.
use vstd::prelude::*;

use crate::json::{json_tree, member, member_of, number_member, number_member_of, text_member, text_member_of, Json};

verus! {

/// The weather condition: a description and the path of its icon.
#[derive(Debug)]
pub struct Condition {
    text: String,
    icon: String,
}

/// The place the reply is about.
#[derive(Debug)]
pub struct Location {
    name: String,
    region: String,
    country: String,
    lat: String,
    lon: String,
}

/// The current weather.
#[derive(Debug)]
pub struct Current {
    temp_c: String,
    temp_f: String,
    feelslike_c: String,
    feelslike_f: String,
    wind_mph: String,
    wind_kph: String,
    wind_degree: String,
    wind_dir: String,
    condition: Condition,
    pressure_mb: String,
    pressure_in: String,
}

/// A successful reply: the place and its current weather.
#[derive(Debug)]
pub struct Response {
    location: Location,
    current: Current,
}

pub struct ConditionModel {
    pub text: Seq<char>,
    pub icon: Seq<char>,
}

pub struct LocationModel {
    pub name: Seq<char>,
    pub region: Seq<char>,
    pub country: Seq<char>,
    pub lat: Seq<char>,
    pub lon: Seq<char>,
}

pub struct CurrentModel {
    pub temp_c: Seq<char>,
    pub temp_f: Seq<char>,
    pub feelslike_c: Seq<char>,
    pub feelslike_f: Seq<char>,
    pub wind_mph: Seq<char>,
    pub wind_kph: Seq<char>,
    pub wind_degree: Seq<char>,
    pub wind_dir: Seq<char>,
    pub condition: ConditionModel,
    pub pressure_mb: Seq<char>,
    pub pressure_in: Seq<char>,
}

pub struct ResponseModel {
    pub location: LocationModel,
    pub current: CurrentModel,
}

impl View for Condition {
    type V = ConditionModel;

    closed spec fn view(&self) -> ConditionModel {
        ConditionModel { text: self.text@, icon: self.icon@ }
    }
}

impl View for Location {
    type V = LocationModel;

    closed spec fn view(&self) -> LocationModel {
        LocationModel {
            name: self.name@,
            region: self.region@,
            country: self.country@,
            lat: self.lat@,
            lon: self.lon@,
        }
    }
}

impl View for Current {
    type V = CurrentModel;

    closed spec fn view(&self) -> CurrentModel {
        CurrentModel {
            temp_c: self.temp_c@,
            temp_f: self.temp_f@,
            feelslike_c: self.feelslike_c@,
            feelslike_f: self.feelslike_f@,
            wind_mph: self.wind_mph@,
            wind_kph: self.wind_kph@,
            wind_degree: self.wind_degree@,
            wind_dir: self.wind_dir@,
            condition: self.condition@,
            pressure_mb: self.pressure_mb@,
            pressure_in: self.pressure_in@,
        }
    }
}

impl View for Response {
    type V = ResponseModel;

    closed spec fn view(&self) -> ResponseModel {
        ResponseModel { location: self.location@, current: self.current@ }
    }
}

/// The condition an object describes: string members `text` and `icon`.
pub open spec fn condition_of(t: Json) -> Option<ConditionModel> {
    let text = text_member_of(t, "text"@);
    let icon = text_member_of(t, "icon"@);
    if text is Some && icon is Some {
        Some(ConditionModel { text: text->0, icon: icon->0 })
    } else {
        None
    }
}

/// The location an object describes: string members `name`, `region` and
/// `country`, number members `lat` and `lon`.
pub open spec fn location_of(t: Json) -> Option<LocationModel> {
    let name = text_member_of(t, "name"@);
    let region = text_member_of(t, "region"@);
    let country = text_member_of(t, "country"@);
    let lat = number_member_of(t, "lat"@);
    let lon = number_member_of(t, "lon"@);
    if name is Some && region is Some && country is Some && lat is Some && lon is Some {
        Some(
            LocationModel {
                name: name->0,
                region: region->0,
                country: country->0,
                lat: lat->0,
                lon: lon->0,
            },
        )
    } else {
        None
    }
}

/// The current weather an object describes: number members for the
/// measurements, a string member `wind_dir`, and an object `condition`.
pub open spec fn current_of(t: Json) -> Option<CurrentModel> {
    let temp_c = number_member_of(t, "temp_c"@);
    let temp_f = number_member_of(t, "temp_f"@);
    let feelslike_c = number_member_of(t, "feelslike_c"@);
    let feelslike_f = number_member_of(t, "feelslike_f"@);
    let wind_mph = number_member_of(t, "wind_mph"@);
    let wind_kph = number_member_of(t, "wind_kph"@);
    let wind_degree = number_member_of(t, "wind_degree"@);
    let wind_dir = text_member_of(t, "wind_dir"@);
    let condition = match member_of(t, "condition"@) {
        Some(c) => condition_of(c),
        None => None,
    };
    let pressure_mb = number_member_of(t, "pressure_mb"@);
    let pressure_in = number_member_of(t, "pressure_in"@);
    if temp_c is Some && temp_f is Some && feelslike_c is Some && feelslike_f is Some
        && wind_mph is Some && wind_kph is Some && wind_degree is Some && wind_dir is Some
        && condition is Some && pressure_mb is Some && pressure_in is Some {
        Some(
            CurrentModel {
                temp_c: temp_c->0,
                temp_f: temp_f->0,
                feelslike_c: feelslike_c->0,
                feelslike_f: feelslike_f->0,
                wind_mph: wind_mph->0,
                wind_kph: wind_kph->0,
                wind_degree: wind_degree->0,
                wind_dir: wind_dir->0,
                condition: condition->0,
                pressure_mb: pressure_mb->0,
                pressure_in: pressure_in->0,
            },
        )
    } else {
        None
    }
}

/// The reply a document describes: objects `location` and `current`. Other
/// members are ignored.
pub open spec fn response_of(t: Json) -> Option<ResponseModel> {
    let location = match member_of(t, "location"@) {
        Some(l) => location_of(l),
        None => None,
    };
    let current = match member_of(t, "current"@) {
        Some(c) => current_of(c),
        None => None,
    };
    if location is Some && current is Some {
        Some(ResponseModel { location: location->0, current: current->0 })
    } else {
        None
    }
}

/// The JSON object that writes a condition out.
pub open spec fn condition_tree(c: ConditionModel) -> Json {
    Json::Object(map!["text"@ => Json::Text(c.text), "icon"@ => Json::Text(c.icon)])
}

/// The JSON object that writes a location out.
pub open spec fn location_tree(l: LocationModel) -> Json {
    Json::Object(
        map![
            "name"@ => Json::Text(l.name),
            "region"@ => Json::Text(l.region),
            "country"@ => Json::Text(l.country),
            "lat"@ => Json::Number(l.lat),
            "lon"@ => Json::Number(l.lon),
        ],
    )
}

/// The JSON object that writes the current weather out.
pub open spec fn current_tree(c: CurrentModel) -> Json {
    Json::Object(
        map![
            "temp_c"@ => Json::Number(c.temp_c),
            "temp_f"@ => Json::Number(c.temp_f),
            "feelslike_c"@ => Json::Number(c.feelslike_c),
            "feelslike_f"@ => Json::Number(c.feelslike_f),
            "wind_mph"@ => Json::Number(c.wind_mph),
            "wind_kph"@ => Json::Number(c.wind_kph),
            "wind_degree"@ => Json::Number(c.wind_degree),
            "wind_dir"@ => Json::Text(c.wind_dir),
            "condition"@ => condition_tree(c.condition),
            "pressure_mb"@ => Json::Number(c.pressure_mb),
            "pressure_in"@ => Json::Number(c.pressure_in),
        ],
    )
}

/// The JSON document that writes a reply out.
pub open spec fn response_tree(m: ResponseModel) -> Json {
    Json::Object(
        map!["location"@ => location_tree(m.location), "current"@ => current_tree(m.current)],
    )
}

/// The members a current-weather object must have.
pub open spec fn current_keys() -> Set<Seq<char>> {
    set![
        "temp_c"@,
        "temp_f"@,
        "feelslike_c"@,
        "feelslike_f"@,
        "wind_mph"@,
        "wind_kph"@,
        "wind_degree"@,
        "wind_dir"@,
        "condition"@,
        "pressure_mb"@,
        "pressure_in"@,
    ]
}

/// The members a location object must have.
pub open spec fn location_keys() -> Set<Seq<char>> {
    set!["name"@, "region"@, "country"@, "lat"@, "lon"@]
}

impl Condition {
    /// The description of the condition.
    pub fn text(&self) -> (r: &str)
        ensures
            r@ == self@.text,
    {
        &self.text
    }

    /// The path of the condition's icon.
    pub fn icon(&self) -> (r: &str)
        ensures
            r@ == self@.icon,
    {
        &self.icon
    }

    /// Reads a condition from a JSON object; `None` where it lacks a member.
    pub fn from_json(v: &serde_json::Value) -> (r: Option<Condition>)
        ensures
            match condition_of(json_tree(*v)) {
                Some(c) => r is Some && r->0@ == c,
                None => r is None,
            },
    {
        let text = text_member(v, "text");
        let icon = text_member(v, "icon");
        match (text, icon) {
            (Some(text), Some(icon)) => Some(Condition { text, icon }),
            _ => None,
        }
    }
}

impl Location {
    /// The place's name.
    pub fn name(&self) -> (r: &str)
        ensures
            r@ == self@.name,
    {
        &self.name
    }

    /// The place's region.
    pub fn region(&self) -> (r: &str)
        ensures
            r@ == self@.region,
    {
        &self.region
    }

    /// The place's country.
    pub fn country(&self) -> (r: &str)
        ensures
            r@ == self@.country,
    {
        &self.country
    }

    /// The latitude in degrees, as the decimal text of the JSON number.
    pub fn lat(&self) -> (r: &str)
        ensures
            r@ == self@.lat,
    {
        &self.lat
    }

    /// The longitude in degrees, as the decimal text of the JSON number.
    pub fn lon(&self) -> (r: &str)
        ensures
            r@ == self@.lon,
    {
        &self.lon
    }

    /// Reads a location from a JSON object; `None` where it lacks a member.
    pub fn from_json(v: &serde_json::Value) -> (r: Option<Location>)
        ensures
            match location_of(json_tree(*v)) {
                Some(l) => r is Some && r->0@ == l,
                None => r is None,
            },
    {
        let name = text_member(v, "name");
        let region = text_member(v, "region");
        let country = text_member(v, "country");
        let lat = number_member(v, "lat");
        let lon = number_member(v, "lon");
        match (name, region, country, lat, lon) {
            (Some(name), Some(region), Some(country), Some(lat), Some(lon)) => Some(
                Location { name, region, country, lat, lon },
            ),
            _ => None,
        }
    }
}

impl Current {
    /// The temperature in degrees Celsius, as the decimal text of the JSON number.
    pub fn temp_c(&self) -> (r: &str)
        ensures
            r@ == self@.temp_c,
    {
        &self.temp_c
    }

    /// The temperature in degrees Fahrenheit, as the decimal text of the JSON number.
    pub fn temp_f(&self) -> (r: &str)
        ensures
            r@ == self@.temp_f,
    {
        &self.temp_f
    }

    /// The felt temperature in degrees Celsius, as the decimal text of the JSON number.
    pub fn feelslike_c(&self) -> (r: &str)
        ensures
            r@ == self@.feelslike_c,
    {
        &self.feelslike_c
    }

    /// The felt temperature in degrees Fahrenheit, as the decimal text of the JSON number.
    pub fn feelslike_f(&self) -> (r: &str)
        ensures
            r@ == self@.feelslike_f,
    {
        &self.feelslike_f
    }

    /// The wind speed in miles per hour, as the decimal text of the JSON number.
    pub fn wind_mph(&self) -> (r: &str)
        ensures
            r@ == self@.wind_mph,
    {
        &self.wind_mph
    }

    /// The wind speed in kilometres per hour, as the decimal text of the JSON number.
    pub fn wind_kph(&self) -> (r: &str)
        ensures
            r@ == self@.wind_kph,
    {
        &self.wind_kph
    }

    /// The wind direction in degrees, as the decimal text of the JSON number.
    pub fn wind_degree(&self) -> (r: &str)
        ensures
            r@ == self@.wind_degree,
    {
        &self.wind_degree
    }

    /// The wind direction as a compass label.
    pub fn wind_dir(&self) -> (r: &str)
        ensures
            r@ == self@.wind_dir,
    {
        &self.wind_dir
    }

    /// The weather condition.
    pub fn condition(&self) -> (r: &Condition)
        ensures
            r@ == self@.condition,
    {
        &self.condition
    }

    /// The pressure in millibars, as the decimal text of the JSON number.
    pub fn pressure_mb(&self) -> (r: &str)
        ensures
            r@ == self@.pressure_mb,
    {
        &self.pressure_mb
    }

    /// The pressure in inches of mercury, as the decimal text of the JSON number.
    pub fn pressure_in(&self) -> (r: &str)
        ensures
            r@ == self@.pressure_in,
    {
        &self.pressure_in
    }

    /// Reads the current weather from a JSON object; `None` where it lacks a
    /// member.
    pub fn from_json(v: &serde_json::Value) -> (r: Option<Current>)
        ensures
            match current_of(json_tree(*v)) {
                Some(c) => r is Some && r->0@ == c,
                None => r is None,
            },
    {
        let condition = match member(v, "condition") {
            Some(c) => Condition::from_json(c),
            None => None,
        };
        let condition = match condition {
            Some(c) => c,
            None => return None,
        };
        let wind_dir = match text_member(v, "wind_dir") {
            Some(d) => d,
            None => return None,
        };
        let temp_c = match number_member(v, "temp_c") {
            Some(x) => x,
            None => return None,
        };
        let temp_f = match number_member(v, "temp_f") {
            Some(x) => x,
            None => return None,
        };
        let feelslike_c = match number_member(v, "feelslike_c") {
            Some(x) => x,
            None => return None,
        };
        let feelslike_f = match number_member(v, "feelslike_f") {
            Some(x) => x,
            None => return None,
        };
        let wind_mph = match number_member(v, "wind_mph") {
            Some(x) => x,
            None => return None,
        };
        let wind_kph = match number_member(v, "wind_kph") {
            Some(x) => x,
            None => return None,
        };
        let wind_degree = match number_member(v, "wind_degree") {
            Some(x) => x,
            None => return None,
        };
        let pressure_mb = match number_member(v, "pressure_mb") {
            Some(x) => x,
            None => return None,
        };
        let pressure_in = match number_member(v, "pressure_in") {
            Some(x) => x,
            None => return None,
        };
        Some(
            Current {
                temp_c,
                temp_f,
                feelslike_c,
                feelslike_f,
                wind_mph,
                wind_kph,
                wind_degree,
                wind_dir,
                condition,
                pressure_mb,
                pressure_in,
            },
        )
    }
}

impl Response {
    /// The place the reply is about.
    pub fn location(&self) -> (r: &Location)
        ensures
            r@ == self@.location,
    {
        &self.location
    }

    /// The current weather.
    pub fn current(&self) -> (r: &Current)
        ensures
            r@ == self@.current,
    {
        &self.current
    }

    /// Reads a reply from a JSON document; `None` where it lacks a member or
    /// a member has the wrong kind.
    pub fn from_json(v: &serde_json::Value) -> (r: Option<Response>)
        ensures
            match response_of(json_tree(*v)) {
                Some(m) => r is Some && r->0@ == m,
                None => r is None,
            },
    {
        let location = match member(v, "location") {
            Some(l) => Location::from_json(l),
            None => None,
        };
        let current = match member(v, "current") {
            Some(c) => Current::from_json(c),
            None => None,
        };
        match (location, current) {
            (Some(location), Some(current)) => Some(Response { location, current }),
            _ => None,
        }
    }
}

} // verus!
