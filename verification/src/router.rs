//! Routing of an upload to its destination.
//!
//! The router owns the precondition of every transfer: a destination whose
//! required credential is absent is rejected before any request is issued,
//! with the missing field named. A valid target is turned into a dispatch
//! that carries the validated credentials and, for the messaging
//! destination, the full request sequence.

use vstd::prelude::*;

use crate::asset::TransferRequest;
use crate::errors::{CredentialField, UploadError};
use crate::messaging::{messaging_plan, messaging_steps, MessagingStep};
use crate::Platform;

verus! {

/// A destination platform together with the configuration and credentials
/// its transfer client requires. Credentials arrive optional, as
/// configuration supplies them; the router refuses to dispatch while one is
/// absent.
#[derive(Clone, Debug)]
pub enum UploadTarget {
    /// Video-hosting destination: one multipart request for the whole
    /// asset, authorized by an API key.
    VideoHosting { api_key: Option<String> },
    /// Messaging destination: a bot-token-scoped conversation with a
    /// per-request payload ceiling in bytes.
    Messaging { bot_token: Option<String>, conversation_id: Option<i64>, ceiling: u64 },
    /// Social destination: a two-phase handshake authorized by an access
    /// token.
    Social { access_token: Option<String> },
}

/// A validated transfer, ready to perform: the credentials are present and
/// the messaging request sequence is computed. Performing the requests is
/// the caller's part.
#[derive(Clone, Debug)]
pub enum Dispatch {
    /// Send the whole asset to the video-hosting destination.
    VideoHosting { api_key: String },
    /// Perform the messaging steps strictly in order.
    Messaging { bot_token: String, conversation_id: i64, steps: Vec<MessagingStep> },
    /// Run the two-phase social handshake.
    Social { access_token: String },
}

/// The target a platform choice selects: each platform keeps exactly the
/// credential fields it needs, so none can be passed in the wrong place.
pub fn target_for(
    platform: Platform,
    rutube_api_key: Option<String>,
    bot_token: Option<String>,
    chat_id: Option<i64>,
    vk_access_token: Option<String>,
    ceiling: u64,
) -> (t: UploadTarget)
    ensures
        platform == Platform::Rutube ==> t == (UploadTarget::VideoHosting {
            api_key: rutube_api_key,
        }),
        platform == Platform::Telegram ==> t == (UploadTarget::Messaging {
            bot_token,
            conversation_id: chat_id,
            ceiling,
        }),
        platform == Platform::Vk ==> t == (UploadTarget::Social { access_token: vk_access_token }),
{
    match platform {
        Platform::Rutube => UploadTarget::VideoHosting { api_key: rutube_api_key },
        Platform::Telegram => UploadTarget::Messaging {
            bot_token,
            conversation_id: chat_id,
            ceiling,
        },
        Platform::Vk => UploadTarget::Social { access_token: vk_access_token },
    }
}

/// Validate the target's credentials and select its transfer client.
///
/// Fails fast with the missing credential — the messaging destination needs
/// both a bot token and a conversation id, the video-hosting destination its
/// API key, the social destination its access token — and performs no
/// request in any case; a returned dispatch is where requests begin. The
/// router never retries across platforms: a fallback destination takes a new
/// request.
pub fn route(target: &UploadTarget, request: &TransferRequest) -> (r: Result<
    Dispatch,
    UploadError,
>)
    requires
        target matches UploadTarget::Messaging { ceiling, .. } ==> ceiling > 0,
    ensures
        target matches UploadTarget::VideoHosting { api_key: None } ==> r == Err::<
            Dispatch,
            UploadError,
        >(UploadError::MissingCredential(CredentialField::ApiKey)),
        target matches UploadTarget::VideoHosting { api_key: Some(k) } ==> (r matches Ok(
            Dispatch::VideoHosting { api_key },
        ) && api_key@ == k@),
        target matches UploadTarget::Messaging { bot_token: None, .. } ==> r == Err::<
            Dispatch,
            UploadError,
        >(UploadError::MissingCredential(CredentialField::BotToken)),
        target matches UploadTarget::Messaging {
            bot_token: Some(_),
            conversation_id: None,
            ..
        } ==> r == Err::<Dispatch, UploadError>(
            UploadError::MissingCredential(CredentialField::ConversationId),
        ),
        target matches UploadTarget::Messaging {
            bot_token: Some(t),
            conversation_id: Some(id),
            ceiling,
        } ==> (r matches Ok(Dispatch::Messaging { bot_token, conversation_id, steps })
            && bot_token@ == t@ && conversation_id == id && {
            let plan = messaging_plan(
                request.asset.size_bytes as nat,
                ceiling as nat,
                request.caption@,
                request.pre_message@,
                request.post_message@,
            );
            steps@.len() == plan.len() && (forall|i: int|
                0 <= i < plan.len() ==> (#[trigger] steps@[i])@ == plan[i])
        }),
        target matches UploadTarget::Social { access_token: None } ==> r == Err::<
            Dispatch,
            UploadError,
        >(UploadError::MissingCredential(CredentialField::AccessToken)),
        target matches UploadTarget::Social { access_token: Some(tok) } ==> (r matches Ok(
            Dispatch::Social { access_token },
        ) && access_token@ == tok@),
{
    match target {
        UploadTarget::VideoHosting { api_key } => {
            match api_key {
                None => Err(UploadError::MissingCredential(CredentialField::ApiKey)),
                Some(k) => Ok(Dispatch::VideoHosting { api_key: k.clone() }),
            }
        },
        UploadTarget::Messaging { bot_token, conversation_id, ceiling } => {
            match bot_token {
                None => Err(UploadError::MissingCredential(CredentialField::BotToken)),
                Some(t) => {
                    match conversation_id {
                        None => Err(
                            UploadError::MissingCredential(CredentialField::ConversationId),
                        ),
                        Some(id) => {
                            let steps = messaging_steps(request, *ceiling);
                            Ok(
                                Dispatch::Messaging {
                                    bot_token: t.clone(),
                                    conversation_id: *id,
                                    steps,
                                },
                            )
                        },
                    }
                },
            }
        },
        UploadTarget::Social { access_token } => {
            match access_token {
                None => Err(UploadError::MissingCredential(CredentialField::AccessToken)),
                Some(tok) => Ok(Dispatch::Social { access_token: tok.clone() }),
            }
        },
    }
}

} // verus!
