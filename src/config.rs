//! Static settings, loaded once at startup, and the routing of incoming
//! chat messages by channel.
use vstd::prelude::*;

verus! {

/// What submissions and downloads are held to.
pub struct Settings {
    /// Allowed image media subtypes, such as `png`.
    pub image_types: Vec<String>,
}

/// The bot's own identity on the chat platform.
pub struct Bot {
    pub application_id: u64,
    pub discord_token: String,
}

/// Credentials for the image hosting service.
pub struct Api {
    pub imgur_id: String,
}

/// Where the approved images and the ban list are kept.
pub struct Database {
    pub url: String,
    pub name: String,
    pub usrbg_collection: String,
    pub blacklist_collection: String,
}

/// The channels the workflow lives in, and the moderator role.
pub struct Server {
    pub request_channel_id: u64,
    pub log_channel_id: u64,
    pub command_channel_id: u64,
    pub auth_role_id: u64,
}

/// The object storage that approved images are uploaded to.
pub struct Storage {
    pub url: String,
    pub access_key: String,
    pub secret_key: String,
    pub bucket_name: String,
    pub storage_path: String,
}

/// All settings.
pub struct Config {
    pub bot: Bot,
    pub api: Api,
    pub database: Database,
    pub server: Server,
    pub settings: Settings,
    pub storage: Storage,
}

/// What a new chat message is, by the channel it was posted in.
#[derive(Clone, Copy, Debug, PartialEq, Eq, Structural)]
pub enum MessageRoute {
    /// A submission in the request channel.
    Request,
    /// A moderator or user command in the command channel.
    Command,
    /// Anything else, which the workflow ignores.
    Other,
}

/// The route of a message posted in `channel`.
pub open spec fn route_of(server: Server, channel: u64) -> MessageRoute {
    if channel == server.request_channel_id {
        MessageRoute::Request
    } else if channel == server.command_channel_id {
        MessageRoute::Command
    } else {
        MessageRoute::Other
    }
}

/// Classifies a message posted in `channel`.
pub fn route_message(server: &Server, channel: u64) -> (r: MessageRoute)
    ensures
        r == route_of(*server, channel),
{
    if channel == server.request_channel_id {
        MessageRoute::Request
    } else if channel == server.command_channel_id {
        MessageRoute::Command
    } else {
        MessageRoute::Other
    }
}

/// The allowed media subtypes, as text.
pub open spec fn allowed_types(settings: Settings) -> Seq<Seq<char>> {
    settings.image_types@.map_values(|t: String| t@)
}

/// Whether `subtype` is one of the allowed media subtypes.
pub fn type_allowed(settings: &Settings, subtype: &String) -> (r: bool)
    ensures
        r == allowed_types(*settings).contains(subtype@),
{
    let types = &settings.image_types;
    let mut i: usize = 0;
    while i < types.len()
        invariant
            i <= types.len(),
            types == settings.image_types,
            forall|j: int| 0 <= j < i ==> types@[j]@ != subtype@,
        decreases types.len() - i,
    {
        if types[i] == *subtype {
            assert(allowed_types(*settings)[i as int] == subtype@);
            return true;
        }
        i = i + 1;
    }
    proof {
        if allowed_types(*settings).contains(subtype@) {
            let j = choose|j: int|
                0 <= j < allowed_types(*settings).len() && allowed_types(*settings)[j]
                    == subtype@;
            assert(types@[j]@ == subtype@);
        }
    }
    false
}

} // verus!
