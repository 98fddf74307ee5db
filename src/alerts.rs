use vstd::prelude::*;

verus! {

/// A text message to post to a webhook.
pub struct WebhookPost {
    pub url: String,
    pub text: String,
}

/// The message that the owner's webhook receives for an alert.
pub open spec fn owner_text(id: Seq<char>) -> Seq<char> {
    "SurveiLens alert "@ + id
}

/// The message that the responder's webhook receives for an alert.
pub open spec fn responder_text(id: Seq<char>) -> Seq<char> {
    "Responder escalation "@ + id
}

/// The post to make to `hook`, if one is configured.
fn post_to(hook: Option<String>, lead: &str, id: &str) -> (r: Option<WebhookPost>)
    ensures
        hook.is_none() ==> r.is_none(),
        hook.is_some() ==> r.is_some() && r.unwrap().url == hook.unwrap() && r.unwrap().text@ == lead@ + id@,
{
    match hook {
        None => None,
        Some(url) => {
            let mut text = lead.to_owned();
            text.append(id);
            Some(WebhookPost { url, text })
        },
    }
}

/// The owner notification for alert `id`: none where no owner webhook is
/// configured, so that no call is made and nothing fails; else one post of
/// `SurveiLens alert <id>` to it. Delivery is best effort and is not retried.
pub fn notify_owner(id: &str, hook: Option<String>) -> (r: Option<WebhookPost>)
    ensures
        hook.is_none() ==> r.is_none(),
        hook.is_some() ==> r.is_some() && r.unwrap().url == hook.unwrap() && r.unwrap().text@ == owner_text(id@),
{
    post_to(hook, "SurveiLens alert ", id)
}

/// The responder notification for alert `id`: none where no responder
/// webhook is configured; else one post of `Responder escalation <id>` to it.
pub fn notify_responder(id: &str, hook: Option<String>) -> (r: Option<WebhookPost>)
    ensures
        hook.is_none() ==> r.is_none(),
        hook.is_some() ==> r.is_some() && r.unwrap().url == hook.unwrap() && r.unwrap().text@ == responder_text(id@),
{
    post_to(hook, "Responder escalation ", id)
}

} // verus!
