//! The reply of the MJPEG camera stream proxy, decided from what the model
//! server's stream request gave.

use vstd::prelude::*;
use crate::text::concat2;

verus! {

/// `Content-Type` of the relayed stream when the upstream gives none.
pub const CAMERA_DEFAULT_CONTENT_TYPE: &'static str = "multipart/x-mixed-replace; boundary=frame";
/// `Cache-Control` of the relayed stream.
pub const CAMERA_CACHE_CONTROL: &'static str = "no-cache, no-store, must-revalidate";
/// `Pragma` of the relayed stream.
pub const CAMERA_PRAGMA: &'static str = "no-cache";

/// What the proxy answers.
#[derive(Debug)]
pub enum CameraReply {
    /// 200: relay the upstream body with this content type (and the no-cache headers).
    Stream { content_type: String },
    /// 502 with this text body.
    Failed { body: String },
}

/// The proxy's answer: a request that failed (`Err`, its message) or an upstream
/// status that is not a success gives 502 with a short text; otherwise the
/// stream is relayed with the upstream content type, or the MJPEG default.
pub open spec fn camera_reply_of(upstream: Result<(bool, Option<Seq<char>>), Seq<char>>) -> (bool, Seq<char>) {
    match upstream {
        Err(e) => (false, "camera_stream_proxy_failed: "@ + e),
        Ok((ok, ct)) => if !ok {
            (false, "camera_stream_upstream_error"@)
        } else {
            (true, match ct {
                Some(c) => c,
                None => CAMERA_DEFAULT_CONTENT_TYPE@,
            })
        },
    }
}

/// Decides the reply from the upstream outcome: `Ok((success, content_type))` when
/// the model server answered, `Err(message)` when the request failed. In the
/// result, `true` pairs with the content type and `false` with the 502 body.
pub fn camera_reply(upstream: Result<(bool, Option<String>), String>) -> (r: CameraReply)
    ensures
        (match r {
            CameraReply::Stream { content_type } => (true, content_type@),
            CameraReply::Failed { body } => (false, body@),
        }) == camera_reply_of(match upstream {
            Err(e) => Err(e@),
            Ok((ok, ct)) => Ok((ok, match ct { Some(c) => Some(c@), None => None })),
        }),
{
    match upstream {
        Err(e) => CameraReply::Failed { body: concat2("camera_stream_proxy_failed: ", e.as_str()) },
        Ok((ok, ct)) => {
            if !ok {
                CameraReply::Failed { body: String::from_str("camera_stream_upstream_error") }
            } else {
                match ct {
                    Some(c) => CameraReply::Stream { content_type: c },
                    None => CameraReply::Stream { content_type: String::from_str(CAMERA_DEFAULT_CONTENT_TYPE) },
                }
            }
        },
    }
}

} // verus!
