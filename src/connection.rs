use vstd::prelude::*;

verus! {

/// Desktop width asked for when a session is set up.
pub const DEFAULT_WIDTH: u16 = 1024;

/// Desktop height asked for when a session is set up.
pub const DEFAULT_HEIGHT: u16 = 768;

/// The port a remote-desktop server listens on unless told otherwise.
pub const DEFAULT_PORT: u16 = 3389;

/// Who to log in as.
pub struct RDPCredentials {
    username: String,
    password: String,
    domain: Option<String>,
}

impl RDPCredentials {
    pub closed spec fn username_view(&self) -> Seq<char> {
        self.username@
    }

    pub closed spec fn password_view(&self) -> Seq<char> {
        self.password@
    }

    pub closed spec fn domain_view(&self) -> Option<Seq<char>> {
        match self.domain {
            Some(d) => Some(d@),
            None => None,
        }
    }

    pub fn new(username: String, password: String, domain: Option<String>) -> (r: Self)
        ensures
            r.username_view() == username@,
            r.password_view() == password@,
            r.domain_view() == (match domain {
                Some(d) => Some(d@),
                None => None,
            }),
    {
        Self { username, password, domain }
    }

    pub fn username(&self) -> (r: &String)
        ensures
            r@ == self.username_view(),
    {
        &self.username
    }

    pub fn password(&self) -> (r: &String)
        ensures
            r@ == self.password_view(),
    {
        &self.password
    }

    pub fn domain(&self) -> (r: &Option<String>)
        ensures
            match r {
                Some(d) => self.domain_view() == Some(d@),
                None => self.domain_view() is None,
            },
    {
        &self.domain
    }
}

/// The settings a session is opened with: desktop size, credentials and the
/// names of the dynamic channels to open besides the protocol's own.
pub struct RDPSession {
    width: u16,
    height: u16,
    credentials: RDPCredentials,
    dynamic_virtual_channels: Option<Vec<String>>,
}

impl RDPSession {
    pub closed spec fn width_view(&self) -> u16 {
        self.width
    }

    pub closed spec fn height_view(&self) -> u16 {
        self.height
    }

    pub closed spec fn credentials_view(&self) -> RDPCredentials {
        self.credentials
    }

    pub closed spec fn channels_view(&self) -> Option<Seq<String>> {
        match self.dynamic_virtual_channels {
            Some(v) => Some(v@),
            None => None,
        }
    }

    /// Settings for a session at the default desktop size, with no dynamic channels.
    pub fn from_credentials(credentials: RDPCredentials) -> (r: Self)
        ensures
            r.width_view() == DEFAULT_WIDTH,
            r.height_view() == DEFAULT_HEIGHT,
            r.credentials_view() == credentials,
            r.channels_view() is None,
    {
        Self {
            width: DEFAULT_WIDTH,
            height: DEFAULT_HEIGHT,
            credentials,
            dynamic_virtual_channels: None,
        }
    }

    /// The same settings, with these dynamic channels to open.
    pub fn with_dynamic_channels(self, dynamic_channels: Option<Vec<String>>) -> (r: Self)
        ensures
            r.width_view() == self.width_view(),
            r.height_view() == self.height_view(),
            r.credentials_view() == self.credentials_view(),
            r.channels_view() == (match dynamic_channels {
                Some(v) => Some(v@),
                None => None,
            }),
    {
        let mut s = self;
        s.dynamic_virtual_channels = dynamic_channels;
        s
    }

    pub fn width(&self) -> (r: u16)
        ensures
            r == self.width_view(),
    {
        self.width
    }

    pub fn height(&self) -> (r: u16)
        ensures
            r == self.height_view(),
    {
        self.height
    }

    pub fn credentials(&self) -> (r: &RDPCredentials)
        ensures
            *r == self.credentials_view(),
    {
        &self.credentials
    }

    /// The names of the dynamic channels to open; none when none were given.
    pub fn dynamic_channel_names(&self) -> (r: Vec<String>)
        ensures
            match self.channels_view() {
                Some(v) => r@.len() == v.len() && forall|i: int|
                    0 <= i < v.len() ==> (#[trigger] r@[i])@ == v[i]@,
                None => r@.len() == 0,
            },
    {
        let mut r: Vec<String> = Vec::new();
        match &self.dynamic_virtual_channels {
            Some(v) => {
                let mut i: usize = 0;
                while i < v.len()
                    invariant
                        i <= v@.len(),
                        r@.len() == i,
                        self.channels_view() == Some(v@),
                        forall|j: int| 0 <= j < i ==> (#[trigger] r@[j])@ == v@[j]@,
                    decreases v@.len() - i,
                {
                    r.push(v[i].clone());
                    i = i + 1;
                }
            },
            None => {},
        }
        r
    }
}

} // verus!
