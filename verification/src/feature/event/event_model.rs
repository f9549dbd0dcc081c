use vstd::prelude::*;

use crate::object_id::ObjectKey;

verus! {

/// A new event with this title.
#[derive(Clone, Debug)]
pub struct CreateNewEventRequest {
    pub title: String,
}

/// The new details of an event, each optional; the theme is given by its record id.
#[derive(Clone, Debug)]
pub struct UpdateEventRequest {
    pub theme_id: Option<ObjectKey>,
    pub event_name: Option<String>,
    pub event_description: Option<String>,
    pub status: Option<String>,
    pub datetime: Option<String>,
}

/// The new venue of an event, each part optional; the map details are free-form data.
#[derive(Clone, Debug)]
pub struct UpdateEventLocationRequest {
    pub map_id: Option<String>,
    pub map_details: Option<serde_json::Value>,
    pub venue_name: Option<String>,
    pub venue_address: Option<String>,
    pub venue_detail: Option<String>,
    pub lat: Option<i64>,
    pub lng: Option<i64>,
}

/// The role a user takes in an event.
#[derive(Clone, Debug)]
pub struct UpdateEventHostRequest {
    pub event_id: String,
    pub user_id: String,
    pub role: String,
}

} // verus!
