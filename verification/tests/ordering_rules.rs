use anime_scraper::ordering::{insert_index, present_episodes, reverse_episodes, sort_episodes};
use anime_scraper::records::Episode;

fn ep(id: &str, number: u32) -> Episode {
    Episode {
        id: id.to_string(),
        number,
        title: format!("Episode {}", number),
        url: format!("https://animeav1.com/media/x/{}", id),
    }
}

fn numbers(list: &Vec<Episode>) -> Vec<u32> {
    list.iter().map(|e| e.number).collect()
}

fn ids(list: &Vec<Episode>) -> Vec<String> {
    list.iter().map(|e| e.id.clone()).collect()
}

#[test]
fn distinct_numbers_come_out_strictly_ascending() {
    let input = vec![ep("5", 5), ep("1", 1), ep("9", 9), ep("3", 3), ep("2", 2)];
    let out = sort_episodes(input);
    assert_eq!(numbers(&out), vec![1, 2, 3, 5, 9]);
    assert!(out.windows(2).all(|w| w[0].number < w[1].number));
}

#[test]
fn sort_keeps_every_episode() {
    let input = vec![ep("b", 2), ep("a", 1), ep("c", 2), ep("d", 0)];
    let mut expected = input.clone();
    expected.sort_by_key(|e| e.number);
    assert_eq!(sort_episodes(input), expected);
}

#[test]
fn equal_numbers_keep_their_order() {
    let input = vec![ep("x", 0), ep("b", 2), ep("y", 0), ep("a", 2), ep("z", 0)];
    let out = sort_episodes(input);
    assert_eq!(ids(&out), vec!["x", "y", "z", "b", "a"]);
}

#[test]
fn empty_and_single_lists() {
    assert_eq!(sort_episodes(Vec::new()), Vec::<Episode>::new());
    assert_eq!(sort_episodes(vec![ep("1", 1)]), vec![ep("1", 1)]);
}

#[test]
fn insert_index_is_behind_equal_numbers() {
    let acc = vec![ep("a", 1), ep("b", 3), ep("c", 3), ep("d", 8)];
    assert_eq!(insert_index(&acc, 0), 0);
    assert_eq!(insert_index(&acc, 3), 3);
    assert_eq!(insert_index(&acc, 5), 3);
    assert_eq!(insert_index(&acc, 9), 4);
}

#[test]
fn reverse_turns_the_order_round() {
    let out = reverse_episodes(vec![ep("a", 1), ep("b", 2), ep("c", 3)]);
    assert_eq!(ids(&out), vec!["c", "b", "a"]);
}

#[test]
fn newest_first_pages_are_turned_before_sorting() {
    let page = vec![ep("new", 0), ep("3", 3), ep("2", 2), ep("old", 0)];
    let out = present_episodes(page.clone(), true);
    assert_eq!(ids(&out), vec!["old", "new", "2", "3"]);
    let out = present_episodes(page, false);
    assert_eq!(ids(&out), vec!["new", "old", "2", "3"]);
}

#[test]
fn presentation_keeps_slugs_distinct() {
    let page = vec![ep("c", 3), ep("a", 1), ep("b", 1), ep("d", 0)];
    let out = present_episodes(page, true);
    let mut seen: Vec<String> = ids(&out);
    seen.sort();
    seen.dedup();
    assert_eq!(seen.len(), 4);
    assert_eq!(ids(&out), vec!["d", "b", "a", "c"]);
}
