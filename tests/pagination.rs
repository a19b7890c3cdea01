use crunchyroll::pagination::{Pagination, PullStep};

/// Pulls `p` until it ends, answering each fetch from `pages` in turn (all
/// declaring `total`). Returns the items and the checkpoints that fetches were made at.
fn drive(p: &mut Pagination<char>, pages: &[Vec<char>], total: u32) -> (Vec<char>, Vec<u32>) {
    let mut out = Vec::new();
    let mut fetched = Vec::new();
    loop {
        match p.pull() {
            PullStep::Item(c) => out.push(c),
            PullStep::Fetch(at) => {
                let page = pages[fetched.len()].clone();
                fetched.push(at);
                p.deliver(page, total);
            }
            PullStep::Done => return (out, fetched),
        }
    }
}

fn query() -> Vec<(String, String)> {
    vec![("locale".to_string(), "en-US".to_string())]
}

#[test]
fn two_pages_of_five() {
    let mut p = Pagination::new(query());
    let pages = vec![vec!['a', 'b', 'c'], vec!['d', 'e']];
    let (items, fetched) = drive(&mut p, &pages, 5);
    assert_eq!(items, vec!['a', 'b', 'c', 'd', 'e']);
    assert_eq!(p.total(), Some(5));
    assert_eq!(p.count(), 5);
    assert_eq!(fetched, vec![0, 3]);
}

#[test]
fn total_matches_items_for_any_split() {
    let splits: Vec<Vec<Vec<char>>> = vec![
        vec![vec!['a', 'b', 'c', 'd']],
        vec![vec!['a'], vec!['b'], vec!['c'], vec!['d']],
        vec![vec!['a', 'b'], vec![], vec!['c', 'd']],
    ];
    for pages in splits {
        let mut p = Pagination::new(query());
        let (items, _) = drive(&mut p, &pages, 4);
        assert_eq!(items, vec!['a', 'b', 'c', 'd']);
        assert_eq!(p.count(), 4);
        assert!(matches!(p.pull(), PullStep::Done));
    }
}

#[test]
fn total_fetches_once() {
    let mut p: Pagination<char> = Pagination::new(query());
    assert_eq!(p.total(), None);
    let mut fetches = 0;
    let total = match p.total() {
        Some(t) => t,
        None => {
            fetches += 1;
            p.deliver(vec!['x', 'y'], 7);
            p.total().unwrap()
        }
    };
    assert_eq!(total, 7);
    assert_eq!(fetches, 1);
    assert_eq!(p.count(), 0);
    assert_eq!(p.total(), Some(7));
    assert!(matches!(p.pull(), PullStep::Item('x')));
    assert_eq!(p.total(), Some(7));
}

#[test]
fn zero_total_ends_after_one_fetch() {
    let mut p = Pagination::new(query());
    let pages = vec![vec![], vec!['z']];
    let (items, fetched) = drive(&mut p, &pages, 0);
    assert!(items.is_empty());
    assert_eq!(fetched, vec![0]);
    assert!(matches!(p.pull(), PullStep::Done));
}

#[test]
fn order_within_and_across_pages() {
    let mut p = Pagination::new(query());
    let pages = vec![vec!['q', 'a', 'm'], vec!['b', 'z']];
    let (items, _) = drive(&mut p, &pages, 5);
    assert_eq!(items, vec!['q', 'a', 'm', 'b', 'z']);
}

#[test]
fn failed_fetch_is_asked_again_at_same_checkpoint() {
    let mut p = Pagination::new(query());
    p.deliver(vec!['a'], 3);
    assert!(matches!(p.pull(), PullStep::Item('a')));
    assert!(matches!(p.pull(), PullStep::Fetch(1)));
    // the fetch failed: nothing is delivered, and the next pull asks again
    assert!(matches!(p.pull(), PullStep::Fetch(1)));
    assert_eq!(p.count(), 1);
}

#[test]
fn page_longer_than_total_is_drained() {
    let mut p = Pagination::new(query());
    let pages = vec![vec!['a', 'b', 'c']];
    let (items, fetched) = drive(&mut p, &pages, 1);
    assert_eq!(items, vec!['a', 'b', 'c']);
    assert_eq!(fetched, vec![0]);
    assert_eq!(p.count(), 3);
}

#[test]
fn query_is_kept() {
    let mut p: Pagination<char> = Pagination::new(query());
    p.deliver(vec!['a'], 1);
    let _ = p.pull();
    assert_eq!(p.query(), &query());
}
