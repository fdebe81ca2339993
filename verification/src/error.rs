use vstd::prelude::*;
use vstd::string::to_string_from_display_ensures;

verus! {

/// Declares `std::io::Error`, the cause of a transport error, so that an error can carry it.
/// Nothing is claimed of it beyond what vstd states of `to_string` for displayable values.
#[verifier::external_type_specification]
#[verifier::external_body]
pub struct ExIoError(std::io::Error);

/// Everything that can go wrong when configuring or starting a client.
#[derive(Debug)]
pub enum AuralogsError {
    MissingApiKey,
    MissingEnvironment,
    MissingEndpoint,
    AlreadyInitialized,
    InvalidConfig(String),
    Transport(std::io::Error),
}

/// What an error says, with its text as characters.
pub enum ErrorView {
    MissingApiKey,
    MissingEnvironment,
    MissingEndpoint,
    AlreadyInitialized,
    InvalidConfig(Seq<char>),
    Transport(std::io::Error),
}

impl View for AuralogsError {
    type V = ErrorView;

    open spec fn view(&self) -> ErrorView {
        match self {
            AuralogsError::MissingApiKey => ErrorView::MissingApiKey,
            AuralogsError::MissingEnvironment => ErrorView::MissingEnvironment,
            AuralogsError::MissingEndpoint => ErrorView::MissingEndpoint,
            AuralogsError::AlreadyInitialized => ErrorView::AlreadyInitialized,
            AuralogsError::InvalidConfig(text) => ErrorView::InvalidConfig(text@),
            AuralogsError::Transport(cause) => ErrorView::Transport(*cause),
        }
    }
}

/// Whether `text` is what displaying the I/O error `cause` gives.
pub open spec fn displays_as(cause: std::io::Error, text: String) -> bool {
    to_string_from_display_ensures::<std::io::Error>(&cause, text)
}

/// The text of an error; for a transport error, the text that comes before the displayed
/// I/O error.
pub open spec fn error_text(e: ErrorView) -> Seq<char> {
    match e {
        ErrorView::MissingApiKey => "api_key is required"@,
        ErrorView::MissingEnvironment => "environment is required"@,
        ErrorView::MissingEndpoint => "endpoint is required"@,
        ErrorView::AlreadyInitialized => "auralogs global client is already initialized"@,
        ErrorView::InvalidConfig(detail) => "invalid config: "@ + detail,
        ErrorView::Transport(_) => "transport error: "@,
    }
}

impl AuralogsError {
    /// The text of the error, as it is displayed.
    pub fn message(&self) -> (r: String)
        ensures
            !(self is Transport) ==> r@ == error_text(self@),
            self matches AuralogsError::Transport(cause) ==> exists|shown: String|
                #![trigger displays_as(*cause, shown)]
                displays_as(*cause, shown) && r@ == error_text(self@) + shown@,
    {
        match self {
            AuralogsError::MissingApiKey => "api_key is required".to_owned(),
            AuralogsError::MissingEnvironment => "environment is required".to_owned(),
            AuralogsError::MissingEndpoint => "endpoint is required".to_owned(),
            AuralogsError::AlreadyInitialized => "auralogs global client is already initialized".to_owned(),
            AuralogsError::InvalidConfig(detail) => {
                let mut text = "invalid config: ".to_owned();
                text.append(detail.as_str());
                text
            },
            AuralogsError::Transport(cause) => {
                let mut text = "transport error: ".to_owned();
                let shown = cause.to_string();
                text.append(shown.as_str());
                assert(displays_as(*cause, shown));
                text
            },
        }
    }
}

} // verus!
