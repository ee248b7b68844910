//! QR images for a small web form: the form's field list, the byte payload of a
//! submission, the symbol and its PNG rendering, and the data URL that carries
//! the image back to the page.

pub mod data_url;
pub mod dimension;
pub mod endpoint;
pub mod form;
pub mod form_model;
pub mod payload;
pub mod symbol;

pub use endpoint::{
    qr_code_get, qr_code_get_with_cause, qr_code_post, qr_code_post_with_cause, Cause, Outcome,
    QRInfoType, QrError,
};
pub use form::{FormController, Submission};
