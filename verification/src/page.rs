//! What the service answers to a page request: the decisions between reading
//! the request, rendering, and sending the response.
//!
//! Reading the multipart body and running the template engine are the
//! caller's part. It reports each thing that happens to a function here,
//! which decides what happens next; a failure of either becomes an error page
//! with its own status, never a partial page.

use crate::codec::encoded_len;
use crate::image::{build_view, image_of, RenderView};
use vstd::prelude::*;

verus! {

/// Status of a page that was rendered.
pub const STATUS_OK: u16 = 200;

/// Status of the answer to an upload whose body could not be decoded.
pub const STATUS_BAD_REQUEST: u16 = 400;

/// Status of the answer when the template engine failed.
pub const STATUS_INTERNAL_ERROR: u16 = 500;

/// Why a page could not be produced.
#[derive(Debug, Clone, Copy, PartialEq, Eq)]
pub enum PageError {
    /// The multipart body of the upload was malformed: the client's fault.
    Decode,
    /// The template engine failed: the server's fault.
    Render,
}

/// An HTTP response with an HTML body.
#[derive(Debug)]
pub struct HttpResponse {
    pub status: u16,
    pub body: String,
}

/// The status that reports `error`.
pub open spec fn error_status(error: PageError) -> u16 {
    match error {
        PageError::Decode => STATUS_BAD_REQUEST,
        PageError::Render => STATUS_INTERNAL_ERROR,
    }
}

/// The page that reports `error`; it is the same for every request.
pub open spec fn error_body(error: PageError) -> Seq<char> {
    match error {
        PageError::Decode =>
            "<!DOCTYPE html><html><body><h1>400 Bad Request</h1><p>The upload could not be read.</p></body></html>"@,
        PageError::Render =>
            "<!DOCTYPE html><html><body><h1>500 Internal Server Error</h1><p>The page could not be rendered.</p></body></html>"@,
    }
}

/// What to do with an upload once its body has been read.
#[derive(Debug)]
pub enum UploadStep {
    /// Hand this view to the template engine.
    Render(RenderView),
    /// Send this response; nothing is rendered.
    Reject(HttpResponse),
}

/// What the transport reports while it reads the body of an upload.
#[derive(Debug)]
pub enum ReadEvent {
    /// The next file part arrived, with these bytes.
    Part(Vec<u8>),
    /// The body has ended.
    End,
    /// The body is malformed at this point.
    Malformed,
}

/// The file parts of one upload that have been read so far, in the order
/// received.
#[derive(Debug)]
pub struct Intake {
    parts: Vec<Vec<u8>>,
}

impl View for Intake {
    type V = Seq<Seq<u8>>;

    closed spec fn view(&self) -> Seq<Seq<u8>> {
        self.parts@.map_values(|part: Vec<u8>| part@)
    }
}

/// What to do after an event of the transport.
#[derive(Debug)]
pub enum IntakeStep {
    /// Read on, with this state.
    Read(Intake),
    /// Reading is over; go on with this step.
    Done(UploadStep),
}

/// The response that reports `error`: a 4xx status for a failure the client
/// caused, a 5xx status for one the server caused, and a fixed, nonempty
/// page.
pub fn error_response(error: PageError) -> (response: HttpResponse)
    ensures
        response.status == error_status(error),
        response.body@ == error_body(error),
        response.body@.len() > 0,
        error == PageError::Decode ==> 400 <= response.status < 500,
        error == PageError::Render ==> 500 <= response.status < 600,
{
    proof {
        reveal_strlit(
            "<!DOCTYPE html><html><body><h1>400 Bad Request</h1><p>The upload could not be read.</p></body></html>",
        );
        reveal_strlit(
            "<!DOCTYPE html><html><body><h1>500 Internal Server Error</h1><p>The page could not be rendered.</p></body></html>",
        );
    }
    match error {
        PageError::Decode => HttpResponse {
            status: STATUS_BAD_REQUEST,
            body: "<!DOCTYPE html><html><body><h1>400 Bad Request</h1><p>The upload could not be read.</p></body></html>".to_owned(),
        },
        PageError::Render => HttpResponse {
            status: STATUS_INTERNAL_ERROR,
            body: "<!DOCTYPE html><html><body><h1>500 Internal Server Error</h1><p>The page could not be rendered.</p></body></html>".to_owned(),
        },
    }
}

/// Decides what follows the reading of an upload. `parts` holds the bytes of
/// each file part in the order received, or `None` where decoding any part
/// failed.
///
/// A decoded upload is rendered, with one image per part in upload order;
/// zero parts give a view without images. A failed decoding is answered with
/// the error page for [`PageError::Decode`] and nothing is rendered.
pub fn begin_upload(parts: Option<Vec<Vec<u8>>>) -> (step: UploadStep)
    requires
        parts matches Some(received) ==> forall|i: int|
            0 <= i < received@.len() ==> encoded_len(#[trigger] received@[i]@.len()) <= usize::MAX,
    ensures
        match parts {
            Some(received) => {
                &&& step matches UploadStep::Render(view)
                &&& view@.len() == received@.len()
                &&& forall|i: int|
                    0 <= i < received@.len() ==> #[trigger] view@[i] == image_of(received@[i]@)
            },
            None => {
                &&& step matches UploadStep::Reject(response)
                &&& response.status == error_status(PageError::Decode)
                &&& response.body@ == error_body(PageError::Decode)
            },
        },
{
    match parts {
        Some(received) => UploadStep::Render(build_view(received)),
        None => UploadStep::Reject(error_response(PageError::Decode)),
    }
}

impl Intake {
    #[verifier::type_invariant]
    spec fn parts_can_be_encoded(self) -> bool {
        forall|i: int|
            0 <= i < self.parts@.len() ==> encoded_len(#[trigger] self.parts@[i]@.len())
                <= usize::MAX
    }

    /// The state before anything has been read.
    pub fn new() -> (intake: Intake)
        ensures
            intake@ == Seq::<Seq<u8>>::empty(),
    {
        let intake = Intake { parts: Vec::new() };
        assert(intake@ =~= Seq::<Seq<u8>>::empty());
        intake
    }

    /// Decides what follows `event`.
    ///
    /// A part is put behind the parts read before it, and reading goes on.
    /// At the end of the body the parts are rendered, one image per part in
    /// the order received. A malformed body is answered with the error page
    /// for [`PageError::Decode`], whatever was read before: nothing of it is
    /// rendered.
    pub fn on_event(self, event: ReadEvent) -> (step: IntakeStep)
        requires
            event matches ReadEvent::Part(bytes) ==> encoded_len(bytes@.len()) <= usize::MAX,
        ensures
            match event {
                ReadEvent::Part(bytes) => {
                    &&& step matches IntakeStep::Read(next)
                    &&& next@ == self@.push(bytes@)
                },
                ReadEvent::End => {
                    &&& step matches IntakeStep::Done(UploadStep::Render(view))
                    &&& view@.len() == self@.len()
                    &&& forall|i: int|
                        0 <= i < self@.len() ==> #[trigger] view@[i] == image_of(self@[i])
                },
                ReadEvent::Malformed => {
                    &&& step matches IntakeStep::Done(UploadStep::Reject(response))
                    &&& response.status == error_status(PageError::Decode)
                    &&& response.body@ == error_body(PageError::Decode)
                },
            },
    {
        proof {
            use_type_invariant(&self);
        }
        match event {
            ReadEvent::Part(bytes) => {
                let ghost before = self@;
                let mut parts = self.parts;
                parts.push(bytes);
                let next = Intake { parts };
                assert(next@ =~= before.push(bytes@));
                IntakeStep::Read(next)
            },
            ReadEvent::End => IntakeStep::Done(begin_upload(Some(self.parts))),
            ReadEvent::Malformed => IntakeStep::Done(begin_upload(None)),
        }
    }
}

/// Decides the response once the template engine has run. `rendered` is the
/// document it produced, or `None` where it failed.
///
/// A rendered document is sent unchanged with status 200, whatever the
/// request was. A failed rendering is answered with the error page for
/// [`PageError::Render`].
pub fn finish_page(rendered: Option<String>) -> (response: HttpResponse)
    ensures
        match rendered {
            Some(document) => response.status == STATUS_OK && response.body == document,
            None => {
                &&& response.status == error_status(PageError::Render)
                &&& response.body@ == error_body(PageError::Render)
            },
        },
        response.status == STATUS_OK <==> rendered is Some,
        (rendered matches Some(document) && document@.len() == 0) <==> response.body@.len() == 0,
{
    match rendered {
        Some(document) => HttpResponse { status: STATUS_OK, body: document },
        None => error_response(PageError::Render),
    }
}

} // verus!
