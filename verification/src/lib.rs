//! Core library of a terminal Discord client: identifiers, capabilities,
//! client state and the gateway protocol decisions, each with its contract.
pub mod asset_cache;
pub mod avatar;
pub mod capabilities;
pub mod channel;
pub mod channel_state;
pub mod client_rules;
pub mod commands;
pub mod config_load;
pub mod config_options;
pub mod credentials;
pub mod dispatch;
pub mod events;
pub mod fingerprint;
pub mod gateway;
pub mod gateway_payload;
pub mod header;
pub mod history;
pub mod http_headers;
pub mod id_map;
pub mod json;
pub mod ids;
pub mod member_state;
pub mod message_cache;
pub mod message_info;
pub mod message_state;
pub mod message_upsert;
pub mod notification;
pub mod os_version;
pub mod parse_channel;
pub mod parse_common;
pub mod parse_events;
pub mod parse_guild;
pub mod parse_message;
pub mod payload_rules;
pub mod presence;
pub mod reactions;
pub mod state;
pub mod text;
pub mod theme;
pub mod toml_doc;
pub mod typing;
pub mod user_settings;
pub mod voice;
