use vstd::prelude::*;

verus! {

/// The service's configuration.
#[derive(Clone, Debug)]
pub struct Settings {
    pub discord: Discord,
    pub graphql: GraphQl,
    pub mensatt: Mensatt,
    pub image: Image,
}

/// The chat side: bot token, the channel that panels are posted to, and the
/// guilds the bot serves.
#[derive(Clone, Debug)]
pub struct Discord {
    pub token: String,
    pub comm_channel: u64,
    pub guilds: Vec<u64>,
}

/// Where the data API listens, for subscriptions and for requests.
#[derive(Clone, Debug)]
pub struct GraphQl {
    pub ws_url: String,
    pub https_url: String,
}

/// The data API's account and links.
#[derive(Clone, Debug)]
pub struct Mensatt {
    pub occurrence_url: String,
    pub user: String,
    pub password: String,
    /// How long before its expiry a token already counts as expired, so that
    /// a login's latency and clock skew cannot hand out a dead token.
    pub jwt_threshold_secs: u64,
}

/// The image service: where images are shown and rotated, and its key.
#[derive(Clone, Debug)]
pub struct Image {
    pub image_url: String,
    pub rotate_url: String,
    pub key: String,
}

} // verus!
