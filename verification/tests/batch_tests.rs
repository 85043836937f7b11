use fmlm::orchestrator::{
    batch_collect, make_thumbnail_response, BatchState, PermitPool, ThumbnailResponse,
};
use fmlm::thumbnail::ThumbnailError;

#[test]
fn test_permit_pool_counts() {
    let mut pool = PermitPool::new(2);
    assert!(pool.try_acquire());
    assert!(pool.try_acquire());
    assert!(!pool.try_acquire());
    pool.release();
    assert!(pool.try_acquire());
}

#[test]
fn test_make_thumbnail_response() {
    let ok = make_thumbnail_response(Ok("/cache/t.jpg".to_string()), &Some(vec![1u8, 2, 3]));
    assert!(ok.success);
    assert_eq!(ok.thumbnail_path.as_deref(), Some("/cache/t.jpg"));
    assert_eq!(ok.thumbnail_data_url.as_deref(), Some("data:image/jpeg;base64,AQID"));
    assert!(ok.error.is_none());

    let err = make_thumbnail_response(
        Err(ThumbnailError::VideoDecoding("No frames could be decoded".to_string())),
        &None,
    );
    assert!(!err.success);
    assert!(err.thumbnail_path.is_none());
    assert!(err.thumbnail_data_url.is_none());
    assert_eq!(
        err.error.as_deref(),
        Some("Failed to decode video frame: No frames could be decoded")
    );
}

#[test]
fn test_batch_collect_covers_every_outcome_in_order() {
    let outcomes: Vec<(Result<String, ThumbnailError>, Option<Vec<u8>>)> = vec![
        (Ok("/cache/a.jpg".to_string()), None),
        (Err(ThumbnailError::UnsupportedFormat), None),
        (Ok("/cache/b.jpg".to_string()), Some(vec![9u8])),
    ];
    let responses = batch_collect(outcomes);
    assert_eq!(responses.len(), 3);
    assert!(responses[0].success);
    assert!(!responses[1].success);
    assert_eq!(responses[1].error.as_deref(), Some("Unsupported file format"));
    assert!(responses[2].success);
    assert!(responses[2].thumbnail_data_url.is_some());
}

fn response_for(index: usize, malformed: &[usize]) -> ThumbnailResponse {
    if malformed.contains(&index) {
        make_thumbnail_response(
            Err(ThumbnailError::VideoDecoding("No frames could be decoded".to_string())),
            &None,
        )
    } else {
        make_thumbnail_response(Ok(format!("/cache/{}.jpg", index)), &None)
    }
}

#[test]
fn test_batch_of_twelve_with_permit_pool_of_five() {
    // 12 files under a pool of 5 permits; 3 deliberately malformed.
    let malformed = [2usize, 5, 9];
    let mut pool = PermitPool::new(5);
    let mut batch = BatchState::new(12, &pool);
    let mut running: Vec<usize> = Vec::new();
    let mut high_water = 0u32;
    let mut step = 0usize;
    while !batch.is_complete() {
        // fill the pool as far as the permits allow
        while let Some(i) = batch.start_next(&mut pool) {
            running.push(i);
            assert!(pool.in_flight <= 5, "more than five decodes in flight");
            high_water = high_water.max(pool.in_flight);
        }
        assert!(pool.in_flight <= 5);
        // let one in-flight decode finish, alternating which end
        let i = if step % 2 == 0 { running.remove(0) } else { running.pop().unwrap() };
        step += 1;
        batch.finish(&mut pool, i, response_for(i, &malformed));
    }
    // the cap was reached but never exceeded
    assert_eq!(high_water, 5);
    let responses = batch.into_responses(&pool);
    // all 12 outcomes are produced, each input covered exactly once
    assert_eq!(responses.len(), 12);
    for (i, r) in responses.iter().enumerate() {
        if malformed.contains(&i) {
            assert!(!r.success);
            assert!(r.error.is_some());
        } else {
            assert!(r.success);
            assert_eq!(r.thumbnail_path.as_deref().unwrap(), format!("/cache/{}.jpg", i));
        }
    }
}

#[test]
fn test_start_next_stops_at_capacity_and_at_end() {
    let mut pool = PermitPool::new(5);
    let mut batch = BatchState::new(3, &pool);
    assert_eq!(batch.start_next(&mut pool), Some(0));
    assert_eq!(batch.start_next(&mut pool), Some(1));
    assert_eq!(batch.start_next(&mut pool), Some(2));
    // all files are handed out
    assert_eq!(batch.start_next(&mut pool), None);
    batch.finish(&mut pool, 0, response_for(0, &[]));
    batch.finish(&mut pool, 1, response_for(1, &[]));
    batch.finish(&mut pool, 2, response_for(2, &[]));
    assert!(batch.is_complete());
}
