use sixdkb::gate::ConcurrencyGate;
use sixdkb::models::CastMember;
use sixdkb::models::CrewMember;
use sixdkb::models::MovieCreditsResponse;
use sixdkb::models::MovieDetailsResponse;
use sixdkb::models::MovieIdEntry;
use sixdkb::pipeline::catalog_ids;
use sixdkb::pipeline::run_catalog;
use sixdkb::pipeline::FetchedItem;
use sixdkb::pipeline::process_item;
use sixdkb::pipeline::remaining_items;
use sixdkb::progress::flush_progress;
use sixdkb::progress::shutdown_flush;
use sixdkb::progress::ProgressTracker;
use sixdkb::rate::SlidingWindowLimiter;
use sixdkb::retry::backoff_delay;
use sixdkb::retry::classify_primary;
use sixdkb::retry::run_secondary;
use sixdkb::retry::secondary_decision;
use sixdkb::retry::PrimaryOutcome;
use sixdkb::retry::SecondaryDecision;
use sixdkb::retry::SecondaryResult;
use sixdkb::store::DurableStore;

fn details(id: i32, title: &str, popularity: u32) -> MovieDetailsResponse {
    MovieDetailsResponse {
        backdrop_path: None,
        id,
        imdb_id: Some(format!("tt{id}")),
        popularity,
        poster_path: None,
        title: title.to_string(),
    }
}

fn credits(id: i32, cast_ids: &[i32], crew_ids: &[i32]) -> MovieCreditsResponse {
    let cast = cast_ids
        .iter()
        .map(|&pid| CastMember {
            id: pid,
            name: format!("cast {pid}"),
            popularity: 7,
            profile_path: None,
            character: format!("role {pid}"),
        })
        .collect();
    let crew = crew_ids
        .iter()
        .map(|&pid| CrewMember {
            id: pid,
            name: format!("crew {pid}"),
            popularity: 3,
            profile_path: None,
            job: format!("job {pid}"),
        })
        .collect();
    MovieCreditsResponse { id, cast, crew }
}

#[test]
fn upsert_same_payload_twice_keeps_one_record() {
    let mut store = DurableStore::new();
    let first = store.write_movie(details(9, "Sunday in August", 2341));
    let second = store.write_movie(details(9, "Sunday in August", 2341));
    assert_eq!(first, second);
    assert_eq!(store.movies.len(), 1);
    assert_eq!(store.movies[0].tmdb_id, 9);
    assert_eq!(store.movies[0].title, "Sunday in August");
}

#[test]
fn second_upsert_changes_only_mutable_fields() {
    let mut store = DurableStore::new();
    store.write_movie(details(9, "Sunday in August", 2341));
    let mut changed = details(9, "Another Title", 9000);
    changed.imdb_id = Some("tt999".to_string());
    store.write_movie(changed);
    assert_eq!(store.movies.len(), 1);
    // Immutable fields keep their first-written values; popularity follows.
    assert_eq!(store.movies[0].title, "Sunday in August");
    assert_eq!(store.movies[0].imdb_id.as_deref(), Some("tt9"));
    assert_eq!(store.movies[0].popularity, 9000);
}

#[test]
fn role_links_have_no_idempotency_guard() {
    let mut store = DurableStore::new();
    let movie_id = store.write_movie(details(1, "a", 0));
    store.write_people(movie_id, credits(1, &[5], &[]));
    store.write_people(movie_id, credits(1, &[5], &[]));
    // One person record, but the linking record is duplicated on replay.
    assert_eq!(store.people.len(), 1);
    assert_eq!(store.roles.len(), 2);
}

#[test]
fn resume_skips_completed_prefix() {
    let catalog = vec![10u32, 20, 30, 40, 50];
    let rest = remaining_items(&catalog, 2);
    assert_eq!(rest, vec![30u32, 40, 50]);
    let all = remaining_items(&catalog, 0);
    assert_eq!(all, catalog);
    let none = remaining_items(&catalog, 5);
    assert!(none.is_empty());
}

#[test]
fn catalog_ids_keep_catalog_order() {
    let entries = vec![
        MovieIdEntry {
            adult: false,
            id: 9,
            original_title: "Sunday in August".to_string(),
            popularity: 2341,
            video: false,
        },
        MovieIdEntry {
            adult: false,
            id: 11,
            original_title: "Star Wars".to_string(),
            popularity: 90,
            video: false,
        },
    ];
    assert_eq!(catalog_ids(&entries), vec![9u32, 11]);
}

#[test]
fn rate_limiter_bounds_tokens_per_window() {
    let mut rl = SlidingWindowLimiter::new(2, 10);
    assert!(rl.try_acquire(0));
    assert!(rl.try_acquire(1));
    // Window (now - 10, now] already holds two tokens.
    assert!(!rl.try_acquire(2));
    assert!(!rl.try_acquire(9));
    // At tick 10 the token from tick 0 has left the window (0, 10].
    assert!(rl.try_acquire(10));
    assert!(!rl.try_acquire(10));
}

#[test]
fn gate_never_exceeds_capacity() {
    let mut gate = ConcurrencyGate::new(2);
    assert!(gate.try_acquire());
    assert!(gate.try_acquire());
    assert!(!gate.try_acquire());
    gate.release();
    assert!(gate.try_acquire());
    assert_eq!(gate.held, 2);
    assert_eq!(gate.capacity, 2);
}

#[test]
fn primary_resource_is_never_retried() {
    assert_eq!(classify_primary(200, true), PrimaryOutcome::Accepted);
    assert_eq!(classify_primary(299, true), PrimaryOutcome::Accepted);
    assert_eq!(classify_primary(300, true), PrimaryOutcome::TerminalStatus);
    assert_eq!(classify_primary(404, true), PrimaryOutcome::TerminalStatus);
    assert_eq!(classify_primary(500, false), PrimaryOutcome::TerminalStatus);
    assert_eq!(classify_primary(200, false), PrimaryOutcome::TerminalParse);
}

#[test]
fn secondary_decisions_follow_the_policy() {
    assert_eq!(secondary_decision(0, 500, true), SecondaryDecision::RetryAfter(1));
    assert_eq!(secondary_decision(3, 400, true), SecondaryDecision::RetryAfter(4));
    assert_eq!(secondary_decision(9, 500, true), SecondaryDecision::Exhausted);
    assert_eq!(secondary_decision(2, 399, true), SecondaryDecision::Accept);
    assert_eq!(secondary_decision(2, 200, false), SecondaryDecision::AbortParse);
    assert_eq!(backoff_delay(0), 1);
    assert_eq!(backoff_delay(8), 9);
}

#[test]
fn backoff_schedule_is_linear_and_capped() {
    // Failing on the first nine attempts and succeeding on the tenth:
    // the delay before attempt k is k time units.
    let mut statuses = vec![500u16; 9];
    statuses.push(200);
    let run = run_secondary(&statuses, true);
    assert_eq!(run.result, SecondaryResult::Accepted { attempt: 9 });
    assert_eq!(run.delays, vec![1u64, 2, 3, 4, 5, 6, 7, 8, 9]);

    // Failing on all ten attempts: terminal failure, no eleventh attempt
    // and no delay scheduled after the last one.
    let always_failing = vec![503u16; 12];
    let run = run_secondary(&always_failing, true);
    assert_eq!(run.result, SecondaryResult::Exhausted);
    assert_eq!(run.delays.len(), 9);

    // A malformed payload on a success status aborts without retry.
    let run = run_secondary(&vec![500, 200, 200, 200, 200, 200, 200, 200, 200, 200], false);
    assert_eq!(run.result, SecondaryResult::AbortedParse { attempt: 1 });
    assert_eq!(run.delays, vec![1u64]);
}

#[test]
fn shutdown_flush_reports_completed_count_only() {
    let mut tracker = ProgressTracker::new(5);
    tracker.record_completion();
    tracker.record_completion();
    tracker.record_completion();
    let report = shutdown_flush(&tracker);
    assert_eq!(report.checkpoint, 8);
    assert_eq!(report.exit_code, 0);

    let mut store = DurableStore::new();
    assert_eq!(store.fetch_start_index(), 0);
    flush_progress(&tracker, &mut store);
    assert_eq!(store.checkpoint, Some(8));
}

#[test]
fn checkpoint_row_is_created_once_and_only_updated() {
    let mut store = DurableStore::new();
    // An update with no row for the day writes nothing.
    store.update_progress(42);
    assert_eq!(store.checkpoint, None);
    // The first read of the day creates the row at zero.
    assert_eq!(store.fetch_start_index(), 0);
    assert_eq!(store.checkpoint, Some(0));
    store.update_progress(42);
    assert_eq!(store.checkpoint, Some(42));
    // A later run the same day resumes from the stored value.
    assert_eq!(store.fetch_start_index(), 42);
}

#[test]
fn example_scenario_three_items() {
    // Catalog of three items, quota effectively unlimited, gate capacity 2;
    // item 2's secondary resource fails twice, then succeeds.
    let catalog = vec![1u32, 2, 3];
    let mut store = DurableStore::new();
    let start_index = store.fetch_start_index();
    assert_eq!(start_index, 0);
    let todo = remaining_items(&catalog, start_index as usize);
    assert_eq!(todo, vec![1u32, 2, 3]);

    let mut rl = SlidingWindowLimiter::new(1000, 1);
    let mut gate = ConcurrencyGate::new(2);
    let mut tracker = ProgressTracker::new(start_index);

    for &id in todo.iter() {
        assert!(gate.try_acquire());
        assert!(rl.try_acquire(0));
        let d = details(id as i32, &format!("movie {id}"), id);
        let secondary_statuses: Vec<u16> = if id == 2 {
            vec![500, 502, 200, 200, 200, 200, 200, 200, 200, 200]
        } else {
            vec![200; 10]
        };
        let mut attempts = 0u64;
        loop {
            assert!(rl.try_acquire(0));
            match secondary_decision(attempts, secondary_statuses[attempts as usize], true) {
                SecondaryDecision::Accept => break,
                SecondaryDecision::RetryAfter(delay) => {
                    assert_eq!(delay, attempts + 1);
                    attempts += 1;
                }
                other => panic!("unexpected decision {other:?}"),
            }
        }
        if id == 2 {
            assert_eq!(attempts, 2);
        } else {
            assert_eq!(attempts, 0);
        }
        let c = credits(id as i32, &[100 + id as i32], &[]);
        // Fetch phase over: the permit is released before persistence.
        gate.release();
        process_item(&mut store, &mut tracker, d, c);
    }

    // All three items persisted exactly once, in some completion order.
    assert_eq!(store.movies.len(), 3);
    let mut ids: Vec<i32> = store.movies.iter().map(|m| m.tmdb_id).collect();
    ids.sort();
    assert_eq!(ids, vec![1, 2, 3]);
    assert_eq!(tracker.completed, 3);

    // Final flush: the checkpoint row for the day stores 3.
    let report = shutdown_flush(&tracker);
    assert_eq!(report.checkpoint, 3);
    assert_eq!(report.exit_code, 0);
    flush_progress(&tracker, &mut store);
    assert_eq!(store.checkpoint, Some(3));
}

#[test]
fn run_catalog_persists_and_counts_every_item() {
    let mut store = DurableStore::new();
    assert_eq!(store.fetch_start_index(), 0);
    let mut tracker = ProgressTracker::new(0);
    let items = vec![
        FetchedItem { details: details(1, "first", 10), credits: credits(1, &[100], &[200]) },
        FetchedItem { details: details(2, "second", 20), credits: credits(2, &[100], &[]) },
        FetchedItem { details: details(3, "third", 30), credits: credits(3, &[], &[]) },
    ];
    run_catalog(&mut store, &mut tracker, items);
    assert_eq!(store.movies.len(), 3);
    assert_eq!(tracker.completed, 3);
    // Person 100 appears on two items: one record, one role per credit.
    assert_eq!(store.people.len(), 2);
    assert_eq!(store.roles.len(), 3);
    store.update_progress(tracker.checkpoint_value());
    assert_eq!(store.checkpoint, Some(3));
}
