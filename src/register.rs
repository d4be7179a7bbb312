//! Device registration with a project service: the credentials asked for,
//! the response kept, and the error kinds reported to a front end.
use vstd::prelude::*;
use vstd::string::*;

verus! {

/// Comment stored with every device registered by the publisher.
pub const DEFAULT_COMMENTS: &'static str = "Registered via SyncFlow Publisher";

#[derive(Debug, Clone)]
pub struct RegisterCredentials {
    pub syncflow_project_id: String,
    pub syncflow_api_key: String,
    pub syncflow_server_url: String,
    pub syncflow_api_secret: String,
    pub device_name: Option<String>,
    pub device_group: String,
}

/// The service's answer to a device registration.
#[derive(Debug, Clone)]
pub struct DeviceResponse {
    pub id: String,
    pub name: String,
    pub group: String,
    pub comments: Option<String>,
}

/// The project details the service reports.
#[derive(Debug, Clone)]
pub struct ProjectInfo {
    pub id: String,
    pub name: String,
    pub livekit_server_url: String,
    pub bucket_name: String,
    pub endpoint: String,
}

#[derive(Debug, Clone)]
pub struct RegistrationResponse {
    pub device_id: String,
    pub device_name: String,
    pub device_group: String,
    pub project_name: String,
    pub project_id: String,
    pub project_comments: String,
    pub lk_server_url: String,
    pub s3_bucket_name: String,
    pub s3_endpoint: String,
}

impl RegistrationResponse {
    /// The registration as kept locally: the device's identity and the
    /// project's endpoints. Missing comments become empty.
    pub fn compose(device_response: &DeviceResponse, project_details: &ProjectInfo) -> (r: Self)
        ensures
            r.device_id == device_response.id,
            r.device_name == device_response.name,
            r.device_group == device_response.group,
            r.project_name == project_details.name,
            r.project_id == project_details.id,
            r.project_comments@ == match device_response.comments {
                Some(c) => c@,
                None => Seq::<char>::empty(),
            },
            r.lk_server_url == project_details.livekit_server_url,
            r.s3_bucket_name == project_details.bucket_name,
            r.s3_endpoint == project_details.endpoint,
    {
        RegistrationResponse {
            device_id: device_response.id.clone(),
            device_name: device_response.name.clone(),
            device_group: device_response.group.clone(),
            project_name: project_details.name.clone(),
            project_id: project_details.id.clone(),
            project_comments: match &device_response.comments {
                Some(c) => c.clone(),
                None => String::new(),
            },
            lk_server_url: project_details.livekit_server_url.clone(),
            s3_bucket_name: project_details.bucket_name.clone(),
            s3_endpoint: project_details.endpoint.clone(),
        }
    }
}

/// The name a device registers under when none is given: the host name,
/// followed by the local address in parentheses when there is one.
pub fn default_device_name(host: &str, ip: Option<&str>) -> (r: String)
    ensures
        r@ == match ip {
            Some(a) => host@ + " ("@ + a@ + ")"@,
            None => host@,
        },
{
    match ip {
        Some(a) => String::from_str(host).concat(" (").concat(a).concat(")"),
        None => String::from_str(host),
    }
}

/// Error categories reported to the front end, each with its message.
#[derive(Debug, Clone)]
pub enum ErrorKind {
    Io(String),
    JSON(String),
    ProjectClient(String),
}

/// The publisher's errors, each with the message of its cause.
#[derive(Debug, Clone)]
pub enum SyncFlowPublisherError {
    ProjectClientError(String),
    IoError(String),
    JsonError(String),
    NotIntialized(String),
}

pub open spec fn error_message(e: SyncFlowPublisherError) -> Seq<char> {
    match e {
        SyncFlowPublisherError::ProjectClientError(m) => m@,
        SyncFlowPublisherError::IoError(m) => "IoError: "@ + m@,
        SyncFlowPublisherError::JsonError(m) => m@,
        SyncFlowPublisherError::NotIntialized(m) => "Failed to read file: "@ + m@,
    }
}

impl SyncFlowPublisherError {
    /// The error's text as shown to users.
    pub fn to_message(&self) -> (r: String)
        ensures
            r@ == error_message(*self),
    {
        match self {
            SyncFlowPublisherError::ProjectClientError(m) => m.clone(),
            SyncFlowPublisherError::IoError(m) => String::from_str("IoError: ").concat(m.as_str()),
            SyncFlowPublisherError::JsonError(m) => m.clone(),
            SyncFlowPublisherError::NotIntialized(m) => String::from_str("Failed to read file: ").concat(
                m.as_str(),
            ),
        }
    }

    /// The category the front end receives: JSON errors keep their own
    /// kind, and an uninitialised client is reported as I/O.
    pub fn kind(&self) -> (r: ErrorKind)
        ensures
            match *self {
                SyncFlowPublisherError::ProjectClientError(_) => r matches ErrorKind::ProjectClient(m)
                    && m@ == error_message(*self),
                SyncFlowPublisherError::JsonError(_) => r matches ErrorKind::JSON(m) && m@ == error_message(
                    *self,
                ),
                _ => r matches ErrorKind::Io(m) && m@ == error_message(*self),
            },
    {
        let message = self.to_message();
        match self {
            SyncFlowPublisherError::ProjectClientError(_) => ErrorKind::ProjectClient(message),
            SyncFlowPublisherError::IoError(_) => ErrorKind::Io(message),
            SyncFlowPublisherError::JsonError(_) => ErrorKind::JSON(message),
            SyncFlowPublisherError::NotIntialized(_) => ErrorKind::Io(message),
        }
    }
}

} // verus!
