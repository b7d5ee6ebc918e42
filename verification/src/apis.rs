//! Groups of API calls that hang off a client.
mod reposts;
mod track_upload;

pub use reposts::{MyReposts, UserReposts};
pub use track_upload::{
    apply_set, bare_fields, each_set_field_is_sent, field_sent, parts_view, setter_last_wins, setter_of,
    setters_commute, upload_form, upload_form_holds_set_fields, FieldSet, FormField, TrackUploadBuilder,
    UploadFields,
};
