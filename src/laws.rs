//! Properties that hold of every request, stated over the models that the
//! resolvers' contracts use, and proved.
use crate::error::GatewayError;
use crate::local::local_outcome;
use crate::proxy::{
    ascii_chars, default_content_type, header_content_type, is_success_status, is_text_header,
    next_state, run_events, state_outcome, EventModel, ProxyModel,
};
use crate::response::{outcome_status, ImageModel};
use vstd::prelude::*;

verus! {

/// The events of an origin that answers with `status` and the header
/// `content_type`, then sends its body in `chunks` and ends it.
pub open spec fn full_exchange(
    status: u16,
    content_type: Option<Seq<u8>>,
    chunks: Seq<Seq<u8>>,
) -> Seq<EventModel> {
    seq![EventModel::Headers { status, content_type }] + chunk_events(chunks)
        + seq![EventModel::Finished]
}

/// One `Chunk` event for each piece of a body.
pub open spec fn chunk_events(chunks: Seq<Seq<u8>>) -> Seq<EventModel> {
    chunks.map_values(|c: Seq<u8>| EventModel::Chunk(c))
}

proof fn lemma_run_concat(s: ProxyModel, a: Seq<EventModel>, b: Seq<EventModel>)
    ensures
        run_events(s, a + b) == run_events(run_events(s, a), b),
    decreases a.len(),
{
    if a.len() > 0 {
        assert((a + b).drop_first() =~= a.drop_first() + b);
        assert((a + b)[0] == a[0]);
        lemma_run_concat(next_state(s, a[0]), a.drop_first(), b);
    } else {
        assert(a + b =~= b);
    }
}

proof fn lemma_run_one(s: ProxyModel, e: EventModel)
    ensures
        run_events(s, seq![e]) == next_state(s, e),
{
    assert(seq![e].drop_first() =~= Seq::<EventModel>::empty());
    assert(run_events(next_state(s, e), Seq::<EventModel>::empty()) == next_state(s, e));
}

proof fn lemma_failed_stays(e: GatewayError, events: Seq<EventModel>)
    ensures
        run_events(ProxyModel::Failed(e), events) == ProxyModel::Failed(e),
    decreases events.len(),
{
    if events.len() > 0 {
        lemma_failed_stays(e, events.drop_first());
    }
}

proof fn lemma_stream_chunks(content_type: Seq<char>, body: Seq<u8>, chunks: Seq<Seq<u8>>)
    ensures
        run_events(ProxyModel::Streaming { content_type, body }, chunk_events(chunks))
            == (ProxyModel::Streaming { content_type, body: body + chunks.flatten() }),
    decreases chunks.len(),
{
    if chunks.len() == 0 {
        assert(body + chunks.flatten() =~= body);
    } else {
        assert(chunk_events(chunks).drop_first() =~= chunk_events(chunks.drop_first()));
        lemma_stream_chunks(content_type, body + chunks[0], chunks.drop_first());
        assert(body + chunks[0] + chunks.drop_first().flatten() =~= body + chunks.flatten());
    }
}

proof fn lemma_exchange_result(
    url: Seq<char>,
    status: u16,
    content_type: Option<Seq<u8>>,
    chunks: Seq<Seq<u8>>,
)
    ensures
        run_events(ProxyModel::Connecting { url }, full_exchange(status, content_type, chunks))
            == (if is_success_status(status) {
            ProxyModel::Complete(
                ImageModel {
                    content_type: header_content_type(content_type),
                    body: chunks.flatten(),
                },
            )
        } else {
            ProxyModel::Failed(GatewayError::UpstreamError(status))
        }),
{
    let head = seq![EventModel::Headers { status, content_type }];
    let s0 = ProxyModel::Connecting { url };
    lemma_run_concat(s0, head + chunk_events(chunks), seq![EventModel::Finished]);
    lemma_run_concat(s0, head, chunk_events(chunks));
    lemma_run_one(s0, EventModel::Headers { status, content_type });
    if is_success_status(status) {
        let ct = header_content_type(content_type);
        lemma_stream_chunks(ct, Seq::empty(), chunks);
        assert(Seq::<u8>::empty() + chunks.flatten() =~= chunks.flatten());
        lemma_run_one(
            ProxyModel::Streaming { content_type: ct, body: chunks.flatten() },
            EventModel::Finished,
        );
    } else {
        let failed = ProxyModel::Failed(GatewayError::UpstreamError(status));
        lemma_failed_stays(GatewayError::UpstreamError(status), chunk_events(chunks));
        lemma_run_one(failed, EventModel::Finished);
    }
}

/// A readable local file is served whole, as `image/jpeg`, with status 200:
/// the body has exactly the file's bytes, so also its length.
pub proof fn lemma_local_file_served(contents: Seq<u8>)
    ensures
        local_outcome(Some(contents)) == Ok::<ImageModel, GatewayError>(
            ImageModel { content_type: default_content_type(), body: contents },
        ),
        outcome_status(local_outcome(Some(contents))) == 200,
{
}

/// A file that is absent or unreadable gives `NotFound`, which a client sees
/// as status 404.
pub proof fn lemma_local_file_missing()
    ensures
        local_outcome(None) == Err::<ImageModel, GatewayError>(GatewayError::NotFound),
        outcome_status(local_outcome(None)) == 404,
{
}

/// An origin that answers with success, a readable content type and a body
/// sent in any number of pieces is relayed exactly: the response holds the
/// whole body and that content type, and the client sees status 200.
pub proof fn lemma_relay_exact(
    url: Seq<char>,
    status: u16,
    content_type: Seq<u8>,
    chunks: Seq<Seq<u8>>,
)
    requires
        is_success_status(status),
        is_text_header(content_type),
    ensures
        state_outcome(
            run_events(
                ProxyModel::Connecting { url },
                full_exchange(status, Some(content_type), chunks),
            ),
        ) == Some(
            Ok::<ImageModel, GatewayError>(
                ImageModel { content_type: ascii_chars(content_type), body: chunks.flatten() },
            ),
        ),
        outcome_status(
            Ok::<ImageModel, GatewayError>(
                ImageModel { content_type: ascii_chars(content_type), body: chunks.flatten() },
            ),
        ) == 200,
{
    lemma_exchange_result(url, status, Some(content_type), chunks);
}

/// An origin that answers with a status outside the success range gives
/// `UpstreamError` with that status, whatever follows, and the client sees 502.
pub proof fn lemma_origin_error(
    url: Seq<char>,
    status: u16,
    content_type: Option<Seq<u8>>,
    rest: Seq<EventModel>,
)
    requires
        !is_success_status(status),
    ensures
        run_events(
            ProxyModel::Connecting { url },
            seq![EventModel::Headers { status, content_type }] + rest,
        ) == ProxyModel::Failed(GatewayError::UpstreamError(status)),
        outcome_status(Err(GatewayError::UpstreamError(status))) == 502,
{
    let head = seq![EventModel::Headers { status, content_type }];
    lemma_run_concat(ProxyModel::Connecting { url }, head, rest);
    lemma_run_one(ProxyModel::Connecting { url }, EventModel::Headers { status, content_type });
    lemma_failed_stays(GatewayError::UpstreamError(status), rest);
}

/// An origin that cannot be reached gives `UpstreamUnavailable`, whatever
/// follows, and the client sees 502.
pub proof fn lemma_transport_failure(url: Seq<char>, rest: Seq<EventModel>)
    ensures
        run_events(ProxyModel::Connecting { url }, seq![EventModel::TransportFailed] + rest)
            == ProxyModel::Failed(GatewayError::UpstreamUnavailable),
        outcome_status(Err(GatewayError::UpstreamUnavailable)) == 502,
{
    lemma_run_concat(ProxyModel::Connecting { url }, seq![EventModel::TransportFailed], rest);
    lemma_run_one(ProxyModel::Connecting { url }, EventModel::TransportFailed);
    lemma_failed_stays(GatewayError::UpstreamUnavailable, rest);
}

/// A body that fails part way through gives `BadUpstreamBody`, whatever
/// arrived before or follows; the outcome holds no bytes, and the client sees 502.
pub proof fn lemma_body_failure(
    url: Seq<char>,
    status: u16,
    content_type: Option<Seq<u8>>,
    chunks: Seq<Seq<u8>>,
    rest: Seq<EventModel>,
)
    requires
        is_success_status(status),
    ensures
        state_outcome(
            run_events(
                ProxyModel::Connecting { url },
                seq![EventModel::Headers { status, content_type }] + chunk_events(chunks)
                    + seq![EventModel::ChunkFailed] + rest,
            ),
        ) == Some(Err::<ImageModel, GatewayError>(GatewayError::BadUpstreamBody)),
        outcome_status(Err(GatewayError::BadUpstreamBody)) == 502,
{
    let s0 = ProxyModel::Connecting { url };
    let head = seq![EventModel::Headers { status, content_type }];
    let fail = seq![EventModel::ChunkFailed];
    let ct = header_content_type(content_type);
    lemma_run_concat(s0, head + chunk_events(chunks) + fail, rest);
    lemma_run_concat(s0, head + chunk_events(chunks), fail);
    lemma_run_concat(s0, head, chunk_events(chunks));
    lemma_run_one(s0, EventModel::Headers { status, content_type });
    lemma_stream_chunks(ct, Seq::empty(), chunks);
    let s2 = ProxyModel::Streaming { content_type: ct, body: Seq::empty() + chunks.flatten() };
    assert(Seq::<u8>::empty() + chunks.flatten() =~= chunks.flatten());
    lemma_run_one(s2, EventModel::ChunkFailed);
    lemma_failed_stays(GatewayError::BadUpstreamBody, rest);
}

/// Repeating a request against an origin that does not change gives the same
/// outcome, however the origin splits its body into pieces each time.
pub proof fn lemma_relay_repeatable(
    url: Seq<char>,
    status: u16,
    content_type: Option<Seq<u8>>,
    first: Seq<Seq<u8>>,
    second: Seq<Seq<u8>>,
)
    requires
        first.flatten() == second.flatten(),
    ensures
        run_events(ProxyModel::Connecting { url }, full_exchange(status, content_type, first))
            == run_events(
            ProxyModel::Connecting { url },
            full_exchange(status, content_type, second),
        ),
{
    lemma_exchange_result(url, status, content_type, first);
    lemma_exchange_result(url, status, content_type, second);
}

} // verus!
