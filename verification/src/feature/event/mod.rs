pub mod event_model;

use vstd::prelude::*;

use event_model::{UpdateEventHostRequest, UpdateEventLocationRequest, UpdateEventRequest};
use crate::feature::file::file::storage_key;
use crate::object_id::{key_view, parse_object_id, ObjectKey};
use crate::outside::{bcrypt_matches, is_object_id_text, object_id_bytes, password_hash};
use crate::text::{concat_str, field_if, text_view, views_of};

verus! {

/// Why a change of an event's hosts was refused.
#[derive(Clone, Copy, Debug, PartialEq, Eq, Structural)]
pub enum EventHostError {
    /// The event id is not a record id.
    EventIdInvalid,
    /// The user id is not a record id.
    UserIdInvalid,
}

impl UpdateEventHostRequest {
    /// The event and the user the request is about, checked in that order.
    pub fn target(&self) -> (r: Result<(ObjectKey, ObjectKey), EventHostError>)
        ensures
            !is_object_id_text(self.event_id@) <==> r == Err::<(ObjectKey, ObjectKey), EventHostError>(
                EventHostError::EventIdInvalid,
            ),
            is_object_id_text(self.event_id@) && !is_object_id_text(self.user_id@) <==> r == Err::<
                (ObjectKey, ObjectKey),
                EventHostError,
            >(EventHostError::UserIdInvalid),
            r matches Ok((e, u)) ==> e@ == object_id_bytes(self.event_id@) && u@ == object_id_bytes(
                self.user_id@,
            ),
    {
        let event = match parse_object_id(self.event_id.as_str()) {
            Some(k) => k,
            None => {
                return Err(EventHostError::EventIdInvalid);
            },
        };
        match parse_object_id(self.user_id.as_str()) {
            Some(u) => Ok((event, u)),
            None => Err(EventHostError::UserIdInvalid),
        }
    }
}

/// The details of an event that an update of its data can change.
#[derive(Clone, Debug)]
pub struct EventDetails {
    pub event_name: String,
    pub event_description: String,
    pub status: String,
    pub theme_id: Option<ObjectKey>,
}

/// The view of [`EventDetails`]: name, description, status and theme.
pub struct EventDetailsView {
    pub event_name: Seq<char>,
    pub event_description: Seq<char>,
    pub status: Seq<char>,
    pub theme_id: Option<Seq<u8>>,
}

impl View for EventDetails {
    type V = EventDetailsView;

    open spec fn view(&self) -> EventDetailsView {
        EventDetailsView {
            event_name: self.event_name@,
            event_description: self.event_description@,
            status: self.status@,
            theme_id: key_view(self.theme_id),
        }
    }
}

impl UpdateEventRequest {
    /// The event after the update: every detail given replaces the stored one; the date and
    /// time given are not stored.
    pub open spec fn patched(&self, e: EventDetailsView) -> EventDetailsView {
        EventDetailsView {
            event_name: match self.event_name {
                Some(v) => v@,
                None => e.event_name,
            },
            event_description: match self.event_description {
                Some(v) => v@,
                None => e.event_description,
            },
            status: match self.status {
                Some(v) => v@,
                None => e.status,
            },
            theme_id: match self.theme_id {
                Some(k) => Some(k@),
                None => e.theme_id,
            },
        }
    }

    /// The fields the update writes to the event's record, in order.
    pub open spec fn written_fields(&self) -> Seq<Seq<char>> {
        field_if(self.event_name, "event_name"@) + field_if(self.event_description, "event_description"@)
            + field_if(self.status, "status"@) + field_if(self.theme_id, "theme_id"@)
    }

    /// No detail is given (the date and time are never stored).
    pub open spec fn changes_nothing(&self) -> bool {
        self.event_name is None && self.event_description is None && self.status is None
            && self.theme_id is None
    }

    /// Applies the update to the event's details and gives the names of the fields written to
    /// its record.
    pub fn apply_to(&self, event: &mut EventDetails) -> (fields: Vec<String>)
        ensures
            final(event)@ == self.patched(old(event)@),
            views_of(fields@) == self.written_fields(),
            self.event_name matches Some(v) ==> final(event).event_name@ == v@,
            self.event_name is None ==> final(event).event_name@ == old(event).event_name@,
            self.event_description matches Some(v) ==> final(event).event_description@ == v@,
            self.event_description is None ==> final(event).event_description@ == old(
                event,
            ).event_description@,
            self.status matches Some(v) ==> final(event).status@ == v@,
            self.status is None ==> final(event).status@ == old(event).status@,
            self.theme_id matches Some(k) ==> key_view(final(event).theme_id) == Some(k@),
            self.theme_id is None ==> key_view(final(event).theme_id) == key_view(old(event).theme_id),
    {
        let mut fields: Vec<String> = Vec::new();
        let ghost e0 = event@;
        if let Some(v) = &self.event_name {
            event.event_name = v.clone();
            fields.push("event_name".to_string());
        }
        let ghost f1 = fields@;
        if let Some(v) = &self.event_description {
            event.event_description = v.clone();
            fields.push("event_description".to_string());
        }
        let ghost f2 = fields@;
        if let Some(v) = &self.status {
            event.status = v.clone();
            fields.push("status".to_string());
        }
        let ghost f3 = fields@;
        if let Some(k) = &self.theme_id {
            event.theme_id = Some(ObjectKey { bytes: k.bytes.clone() });
            fields.push("theme_id".to_string());
        }
        proof {
            reveal_strlit("event_name");
            reveal_strlit("event_description");
            reveal_strlit("status");
            reveal_strlit("theme_id");
            assert(views_of(f1) =~= field_if(self.event_name, "event_name"@));
            assert(views_of(f2) =~= views_of(f1) + field_if(self.event_description, "event_description"@));
            assert(views_of(f3) =~= views_of(f2) + field_if(self.status, "status"@));
            assert(views_of(fields@) =~= views_of(f3) + field_if(self.theme_id, "theme_id"@));
        }
        fields
    }
}

/// An update that gives no detail leaves the event as it was and writes no field.
pub proof fn law_event_empty_update(u: UpdateEventRequest, e: EventDetailsView)
    requires
        u.changes_nothing(),
    ensures
        u.patched(e) == e,
        u.written_fields().len() == 0,
{
}

/// Each detail of an event given replaces the stored one and each detail not given is kept;
/// every field the update reports as written holds the value given.
pub proof fn law_event_update_replaces_given(u: UpdateEventRequest, e: EventDetailsView)
    ensures
        u.event_name matches Some(v) ==> u.patched(e).event_name == v@,
        u.event_name is None ==> u.patched(e).event_name == e.event_name,
        u.event_description matches Some(v) ==> u.patched(e).event_description == v@,
        u.event_description is None ==> u.patched(e).event_description == e.event_description,
        u.status matches Some(v) ==> u.patched(e).status == v@,
        u.status is None ==> u.patched(e).status == e.status,
        u.theme_id matches Some(k) ==> u.patched(e).theme_id == Some(k@),
        u.theme_id is None ==> u.patched(e).theme_id == e.theme_id,
        u.written_fields().contains("event_name"@) ==> (u.event_name matches Some(v)
            && u.patched(e).event_name == v@),
        u.written_fields().contains("status"@) ==> (u.status matches Some(v) && u.patched(e).status
            == v@),
{
    reveal_strlit("event_name");
    reveal_strlit("event_description");
    reveal_strlit("status");
    reveal_strlit("theme_id");
    let w = u.written_fields();
    if w.contains("event_name"@) && u.event_name is None {
        let k = choose|k: int| 0 <= k < w.len() && w[k] == "event_name"@;
        assert(w =~= field_if(u.event_description, "event_description"@) + field_if(
            u.status,
            "status"@,
        ) + field_if(u.theme_id, "theme_id"@));
        assert(w[k].len() == 10);
        assert(w[k][6] == '_');
    }
    if w.contains("status"@) && u.status is None {
        let k = choose|k: int| 0 <= k < w.len() && w[k] == "status"@;
        assert(w =~= field_if(u.event_name, "event_name"@) + field_if(
            u.event_description,
            "event_description"@,
        ) + field_if(u.theme_id, "theme_id"@));
        assert(w[k][0] == 's');
    }
}

/// Each part of a venue given replaces the stored one and each part not given is kept.
pub proof fn law_venue_update_replaces_given(u: UpdateEventLocationRequest, v: VenueLocationView)
    ensures
        u.venue_name matches Some(n) ==> u.patched(v).venue_name == Some(n@),
        u.venue_name is None ==> u.patched(v).venue_name == v.venue_name,
        u.venue_address matches Some(n) ==> u.patched(v).venue_address == Some(n@),
        u.venue_address is None ==> u.patched(v).venue_address == v.venue_address,
        u.venue_detail matches Some(n) ==> u.patched(v).venue_detail == Some(n@),
        u.venue_detail is None ==> u.patched(v).venue_detail == v.venue_detail,
        u.map_id matches Some(n) ==> u.patched(v).map_id == Some(n@),
        u.map_id is None ==> u.patched(v).map_id == v.map_id,
        u.lat is Some ==> u.patched(v).lat == u.lat,
        u.lat is None ==> u.patched(v).lat == v.lat,
        u.lng is Some ==> u.patched(v).lng == u.lng,
        u.lng is None ==> u.patched(v).lng == v.lng,
{
}

/// Applying the same update twice changes nothing more than applying it once.
pub proof fn law_event_update_idempotent(u: UpdateEventRequest, e: EventDetailsView)
    ensures
        u.patched(u.patched(e)) == u.patched(e),
{
}

/// The venue of an event, as far as its parts are plain values (the map details are kept
/// beside it).
#[derive(Clone, Debug)]
pub struct VenueLocation {
    pub map_id: Option<String>,
    pub venue_name: Option<String>,
    pub venue_address: Option<String>,
    pub venue_detail: Option<String>,
    pub lat: Option<i64>,
    pub lng: Option<i64>,
}

/// The view of a [`VenueLocation`].
pub struct VenueLocationView {
    pub map_id: Option<Seq<char>>,
    pub venue_name: Option<Seq<char>>,
    pub venue_address: Option<Seq<char>>,
    pub venue_detail: Option<Seq<char>>,
    pub lat: Option<i64>,
    pub lng: Option<i64>,
}

impl View for VenueLocation {
    type V = VenueLocationView;

    open spec fn view(&self) -> VenueLocationView {
        VenueLocationView {
            map_id: text_view(self.map_id),
            venue_name: text_view(self.venue_name),
            venue_address: text_view(self.venue_address),
            venue_detail: text_view(self.venue_detail),
            lat: self.lat,
            lng: self.lng,
        }
    }
}

impl VenueLocation {
    /// The venue of an event that has none yet: every part empty.
    pub fn unset() -> (r: VenueLocation)
        ensures
            r.map_id is None && r.venue_name is None && r.venue_address is None && r.venue_detail is None
                && r.lat is None && r.lng is None,
    {
        VenueLocation {
            map_id: None,
            venue_name: None,
            venue_address: None,
            venue_detail: None,
            lat: None,
            lng: None,
        }
    }
}

/// `current`, replaced by `given` when a value is given.
pub open spec fn kept_or<T>(current: Option<T>, given: Option<T>) -> Option<T> {
    match given {
        Some(v) => Some(v),
        None => current,
    }
}

impl UpdateEventLocationRequest {
    /// The venue after the update: every part given replaces the stored one.
    pub open spec fn patched(&self, v: VenueLocationView) -> VenueLocationView {
        VenueLocationView {
            map_id: kept_or(v.map_id, text_view(self.map_id)),
            venue_name: kept_or(v.venue_name, text_view(self.venue_name)),
            venue_address: kept_or(v.venue_address, text_view(self.venue_address)),
            venue_detail: kept_or(v.venue_detail, text_view(self.venue_detail)),
            lat: kept_or(v.lat, self.lat),
            lng: kept_or(v.lng, self.lng),
        }
    }

    /// Applies the update to the plain parts of an event's venue.
    pub fn apply_to(&self, venue: &mut VenueLocation)
        ensures
            final(venue)@ == self.patched(old(venue)@),
            self.venue_name matches Some(n) ==> text_view(final(venue).venue_name) == Some(n@),
            self.venue_name is None ==> text_view(final(venue).venue_name) == text_view(
                old(venue).venue_name,
            ),
            self.venue_address matches Some(n) ==> text_view(final(venue).venue_address) == Some(n@),
            self.venue_address is None ==> text_view(final(venue).venue_address) == text_view(
                old(venue).venue_address,
            ),
            self.venue_detail matches Some(n) ==> text_view(final(venue).venue_detail) == Some(n@),
            self.venue_detail is None ==> text_view(final(venue).venue_detail) == text_view(
                old(venue).venue_detail,
            ),
            self.map_id matches Some(n) ==> text_view(final(venue).map_id) == Some(n@),
            self.map_id is None ==> text_view(final(venue).map_id) == text_view(old(venue).map_id),
            self.lat is Some ==> final(venue).lat == self.lat,
            self.lat is None ==> final(venue).lat == old(venue).lat,
            self.lng is Some ==> final(venue).lng == self.lng,
            self.lng is None ==> final(venue).lng == old(venue).lng,
    {
        if let Some(v) = &self.venue_name {
            venue.venue_name = Some(v.clone());
        }
        if let Some(v) = &self.venue_address {
            venue.venue_address = Some(v.clone());
        }
        if let Some(v) = &self.venue_detail {
            venue.venue_detail = Some(v.clone());
        }
        if let Some(v) = self.lat {
            venue.lat = Some(v);
        }
        if let Some(v) = self.lng {
            venue.lng = Some(v);
        }
        if let Some(v) = &self.map_id {
            venue.map_id = Some(v.clone());
        }
    }
}

/// The settings of an event that are not amounts of money.
#[derive(Clone, Debug)]
pub struct EventConfig {
    pub max_capacity: i64,
    pub cost_type: String,
    pub cost_currency: String,
    pub approval_required: bool,
    pub auto_reminder: bool,
    pub show_timestamp_activity: bool,
    pub show_guest_name: bool,
    pub show_guest_count: bool,
    pub allow_participant_album: bool,
    pub visibility: String,
}

/// The view of an [`EventConfig`].
pub struct EventConfigView {
    pub max_capacity: i64,
    pub cost_type: Seq<char>,
    pub cost_currency: Seq<char>,
    pub approval_required: bool,
    pub auto_reminder: bool,
    pub show_timestamp_activity: bool,
    pub show_guest_name: bool,
    pub show_guest_count: bool,
    pub allow_participant_album: bool,
    pub visibility: Seq<char>,
}

impl View for EventConfig {
    type V = EventConfigView;

    open spec fn view(&self) -> EventConfigView {
        EventConfigView {
            max_capacity: self.max_capacity,
            cost_type: self.cost_type@,
            cost_currency: self.cost_currency@,
            approval_required: self.approval_required,
            auto_reminder: self.auto_reminder,
            show_timestamp_activity: self.show_timestamp_activity,
            show_guest_name: self.show_guest_name,
            show_guest_count: self.show_guest_count,
            allow_participant_album: self.allow_participant_album,
            visibility: self.visibility@,
        }
    }
}

/// An update of an event's settings, as far as the update logic reads it: each setting that
/// is not an amount of money, and whether each of the two amounts (the cost and the suggested
/// amount) is given. The amounts themselves are copied by the caller.
#[derive(Clone, Debug)]
pub struct EventConfigUpdate {
    pub max_capacity: Option<i64>,
    pub cost_given: bool,
    pub cost_type: Option<String>,
    pub cost_currency: Option<String>,
    pub cost_suggested_amount_given: bool,
    pub approval_required: Option<bool>,
    pub auto_reminder: Option<bool>,
    pub show_timestamp_activity: Option<bool>,
    pub show_guest_name: Option<bool>,
    pub show_guest_count: Option<bool>,
    pub allow_participant_album: Option<bool>,
    pub visibility: Option<String>,
}

/// The field named `name` when `given` holds.
pub open spec fn field_when(given: bool, name: Seq<char>) -> Seq<Seq<char>> {
    if given {
        seq![name]
    } else {
        Seq::empty()
    }
}

impl EventConfigUpdate {
    /// The settings after the update: every setting given replaces the stored one.
    pub open spec fn patched(&self, c: EventConfigView) -> EventConfigView {
        EventConfigView {
            max_capacity: match self.max_capacity {
                Some(v) => v,
                None => c.max_capacity,
            },
            cost_type: match self.cost_type {
                Some(v) => v@,
                None => c.cost_type,
            },
            cost_currency: match self.cost_currency {
                Some(v) => v@,
                None => c.cost_currency,
            },
            approval_required: match self.approval_required {
                Some(v) => v,
                None => c.approval_required,
            },
            auto_reminder: match self.auto_reminder {
                Some(v) => v,
                None => c.auto_reminder,
            },
            show_timestamp_activity: match self.show_timestamp_activity {
                Some(v) => v,
                None => c.show_timestamp_activity,
            },
            show_guest_name: match self.show_guest_name {
                Some(v) => v,
                None => c.show_guest_name,
            },
            show_guest_count: match self.show_guest_count {
                Some(v) => v,
                None => c.show_guest_count,
            },
            allow_participant_album: match self.allow_participant_album {
                Some(v) => v,
                None => c.allow_participant_album,
            },
            visibility: match self.visibility {
                Some(v) => v@,
                None => c.visibility,
            },
        }
    }

    /// The fields the update writes to the event's record, in order (the album setting is
    /// written twice when given); the event password, when one is written, follows them.
    pub open spec fn written_fields(&self) -> Seq<Seq<char>> {
        self.cost_written() + self.switches_written() + self.access_written()
    }

    /// The cost fields written: cost, cost type, currency, suggested amount.
    pub open spec fn cost_written(&self) -> Seq<Seq<char>> {
        field_when(self.cost_given, "cost"@) + field_if(self.cost_type, "cost_type"@) + field_if(
            self.cost_currency,
            "cost_currency"@,
        ) + field_when(self.cost_suggested_amount_given, "cost_suggested_amount"@)
    }

    /// The switches written: approval, reminder, guest name, guest count, activity times.
    pub open spec fn switches_written(&self) -> Seq<Seq<char>> {
        field_if(self.approval_required, "approval_required"@) + field_if(
            self.auto_reminder,
            "auto_reminder"@,
        ) + field_if(self.show_guest_name, "show_guest_name"@) + field_if(
            self.show_guest_count,
            "show_guest_count"@,
        ) + field_if(self.show_timestamp_activity, "show_timestamp_activity"@)
    }

    /// The access fields written: album, capacity, album again, visibility.
    pub open spec fn access_written(&self) -> Seq<Seq<char>> {
        field_if(self.allow_participant_album, "allow_participant_album"@) + field_if(
            self.max_capacity,
            "max_capacity"@,
        ) + field_if(self.allow_participant_album, "allow_participant_album"@) + field_if(
            self.visibility,
            "visibility"@,
        )
    }

    /// Applies the update to an event's settings and gives the names of the fields written to
    /// its record.
    pub fn apply_to(&self, config: &mut EventConfig) -> (fields: Vec<String>)
        ensures
            final(config)@ == self.patched(old(config)@),
            views_of(fields@) == self.written_fields(),
    {
        self.set_settings(config);
        self.record_fields()
    }

    /// Copies the settings given into `config`.
    #[verifier::rlimit(40)]
    fn set_settings(&self, config: &mut EventConfig)
        ensures
            final(config)@ == self.patched(old(config)@),
    {
        if let Some(v) = &self.cost_type {
            config.cost_type = v.clone();
        }
        if let Some(v) = &self.cost_currency {
            config.cost_currency = v.clone();
        }
        if let Some(v) = self.approval_required {
            config.approval_required = v;
        }
        if let Some(v) = self.auto_reminder {
            config.auto_reminder = v;
        }
        if let Some(v) = self.show_guest_name {
            config.show_guest_name = v;
        }
        if let Some(v) = self.show_guest_count {
            config.show_guest_count = v;
        }
        if let Some(v) = self.show_timestamp_activity {
            config.show_timestamp_activity = v;
        }
        if let Some(v) = self.allow_participant_album {
            config.allow_participant_album = v;
        }
        if let Some(v) = self.max_capacity {
            config.max_capacity = v;
        }
        if let Some(v) = &self.visibility {
            config.visibility = v.clone();
        }
    }

    /// The names of the cost fields written, in order.
    fn cost_fields(&self) -> (r: Vec<String>)
        ensures
            views_of(r@) == self.cost_written(),
    {
        let mut f: Vec<String> = Vec::new();
        if self.cost_given {
            f.push("cost".to_string());
        }
        let ghost f1 = f@;
        if self.cost_type.is_some() {
            f.push("cost_type".to_string());
        }
        let ghost f2 = f@;
        if self.cost_currency.is_some() {
            f.push("cost_currency".to_string());
        }
        let ghost f3 = f@;
        if self.cost_suggested_amount_given {
            f.push("cost_suggested_amount".to_string());
        }
        proof {
            reveal_strlit("cost");
            reveal_strlit("cost_type");
            reveal_strlit("cost_currency");
            reveal_strlit("cost_suggested_amount");
            assert(views_of(f1) =~= field_when(self.cost_given, "cost"@));
            assert(views_of(f2) =~= views_of(f1) + field_if(self.cost_type, "cost_type"@));
            assert(views_of(f3) =~= views_of(f2) + field_if(self.cost_currency, "cost_currency"@));
            assert(views_of(f@) =~= views_of(f3) + field_when(
                self.cost_suggested_amount_given,
                "cost_suggested_amount"@,
            ));
        }
        f
    }

    /// The names of the guest-facing switches written, in order.
    fn switch_fields(&self) -> (r: Vec<String>)
        ensures
            views_of(r@) == self.switches_written(),
    {
        let mut f: Vec<String> = Vec::new();
        if self.approval_required.is_some() {
            f.push("approval_required".to_string());
        }
        let ghost f1 = f@;
        if self.auto_reminder.is_some() {
            f.push("auto_reminder".to_string());
        }
        let ghost f2 = f@;
        if self.show_guest_name.is_some() {
            f.push("show_guest_name".to_string());
        }
        let ghost f3 = f@;
        if self.show_guest_count.is_some() {
            f.push("show_guest_count".to_string());
        }
        let ghost f4 = f@;
        if self.show_timestamp_activity.is_some() {
            f.push("show_timestamp_activity".to_string());
        }
        proof {
            reveal_strlit("approval_required");
            reveal_strlit("auto_reminder");
            reveal_strlit("show_guest_name");
            reveal_strlit("show_guest_count");
            reveal_strlit("show_timestamp_activity");
            assert(views_of(f1) =~= field_if(self.approval_required, "approval_required"@));
            assert(views_of(f2) =~= views_of(f1) + field_if(self.auto_reminder, "auto_reminder"@));
            assert(views_of(f3) =~= views_of(f2) + field_if(self.show_guest_name, "show_guest_name"@));
            assert(views_of(f4) =~= views_of(f3) + field_if(
                self.show_guest_count,
                "show_guest_count"@,
            ));
            assert(views_of(f@) =~= views_of(f4) + field_if(
                self.show_timestamp_activity,
                "show_timestamp_activity"@,
            ));
        }
        f
    }

    /// The names of the album, capacity and visibility fields written, in order.
    fn access_fields(&self) -> (r: Vec<String>)
        ensures
            views_of(r@) == self.access_written(),
    {
        let mut f: Vec<String> = Vec::new();
        if self.allow_participant_album.is_some() {
            f.push("allow_participant_album".to_string());
        }
        let ghost f1 = f@;
        if self.max_capacity.is_some() {
            f.push("max_capacity".to_string());
        }
        let ghost f2 = f@;
        if self.allow_participant_album.is_some() {
            f.push("allow_participant_album".to_string());
        }
        let ghost f3 = f@;
        if self.visibility.is_some() {
            f.push("visibility".to_string());
        }
        proof {
            reveal_strlit("allow_participant_album");
            reveal_strlit("max_capacity");
            reveal_strlit("visibility");
            assert(views_of(f1) =~= field_if(self.allow_participant_album, "allow_participant_album"@));
            assert(views_of(f2) =~= views_of(f1) + field_if(self.max_capacity, "max_capacity"@));
            assert(views_of(f3) =~= views_of(f2) + field_if(
                self.allow_participant_album,
                "allow_participant_album"@,
            ));
            assert(views_of(f@) =~= views_of(f3) + field_if(self.visibility, "visibility"@));
        }
        f
    }

    /// The names of the fields the update writes to the event's record.
    pub fn record_fields(&self) -> (r: Vec<String>)
        ensures
            views_of(r@) == self.written_fields(),
    {
        let mut a = self.cost_fields();
        let mut b = self.switch_fields();
        let mut c = self.access_fields();
        let ghost (va, vb, vc) = (a@, b@, c@);
        a.append(&mut b);
        a.append(&mut c);
        proof {
            assert(a@ == va + vb + vc);
            assert(views_of(va + vb + vc) =~= views_of(va) + views_of(vb) + views_of(vc));
        }
        a
    }
}

/// Where an event's image lies in storage: its directory and its file name.
#[derive(Clone, Debug)]
pub struct StoredImage {
    pub path: String,
    pub file_name: String,
}

/// What uploading an event's image does: the object removed from storage first (if any), the
/// name the upload is stored under, and the image record afterwards (inserted when `inserts`,
/// otherwise the existing record with its file name changed).
pub struct EventImagePlan {
    pub delete_key: Option<String>,
    pub upload_key: String,
    pub image: StoredImage,
    pub inserts: bool,
}

/// Plans the upload of the image of the event `ref_id`: the new file is named by the event
/// id followed directly by the extension and stored in the event's directory; an existing
/// image is removed first, and its record keeps its directory while taking the new name.
pub fn plan_event_image(existing: &Option<StoredImage>, ref_id: &str, extension: &str) -> (r:
    EventImagePlan)
    ensures
        r.upload_key@ == ref_id@ + "/"@ + (ref_id@ + extension@),
        r.image.file_name@ == ref_id@ + extension@,
        r.inserts == existing is None,
        match existing {
            Some(e) => r.delete_key matches Some(k) && k@ == e.path@ + "/"@ + e.file_name@
                && r.image.path@ == e.path@,
            None => r.delete_key is None && r.image.path@ == ref_id@,
        },
{
    let file_name = concat_str(ref_id, extension);
    let upload_key = storage_key(ref_id, file_name.as_str());
    match existing {
        Some(e) => EventImagePlan {
            delete_key: Some(storage_key(e.path.as_str(), e.file_name.as_str())),
            upload_key,
            image: StoredImage { path: e.path.clone(), file_name },
            inserts: false,
        },
        None => EventImagePlan {
            delete_key: None,
            upload_key,
            image: StoredImage { path: ref_id.to_string(), file_name },
            inserts: true,
        },
    }
}

/// The pair an event's configuration update writes for a non-empty `password`, once hashing
/// it gave `hash`: the password as given and the hash, or nothing when no hash was made.
pub fn event_password_with_hash(password: &String, hash: Option<String>) -> (r: Option<
    (String, String),
>)
    ensures
        hash is None ==> r is None,
        hash matches Some(h) ==> r matches Some((stored, shown)) && stored@ == password@ && shown@
            == h@,
{
    match hash {
        Some(h) => Some((password.clone(), h)),
        None => None,
    }
}

/// The event password a configuration update writes, as the pair (text written to the
/// event's record, text shown in the updated event): the password as given goes to the
/// record, and a hash of it is shown. Nothing is written when no password is given, when it
/// is empty, or when no hash can be made.
pub fn event_password_change(password: &Option<String>) -> (r: Option<(String, String)>)
    ensures
        password is None ==> r is None,
        password matches Some(p) && p@.len() == 0 ==> r is None,
        r matches Some((stored, shown)) ==> password matches Some(p) && p@.len() > 0
            && stored@ == p@ && bcrypt_matches(p@, shown@),
{
    match password {
        None => None,
        Some(p) => {
            if p.as_str().unicode_len() == 0 {
                None
            } else {
                let hash = password_hash(p.as_str());
                event_password_with_hash(p, hash)
            }
        },
    }
}

} // verus!
