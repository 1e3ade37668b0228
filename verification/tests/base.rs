//! Texts, numbers, orders and addresses.
use tabbify_supervisor::ipv4::{ipv4_to_text, parse_ipv4};
use tabbify_supervisor::number::{decimal_text, parse_unsigned};
use tabbify_supervisor::order::{sort_dedup_texts, sort_ports, sort_texts, text_less};
use tabbify_supervisor::path::{join, name_of, parent_dir, stem_name};
use tabbify_supervisor::polling::{poll_step, PollStep};
use tabbify_supervisor::process::command_failure;
use tabbify_supervisor::sanitize::{sanitize, to_lower};
use tabbify_supervisor::text::{contains_text, split_once, trim_end_char};
use tabbify_supervisor::text_map::TextMap;
use tabbify_supervisor::words::{split_lines, split_words, trim_text};

fn owned(a: &[&str]) -> Vec<String> {
    a.iter().map(|s| (*s).to_owned()).collect()
}

#[test]
fn numbers_and_addresses_read_back() {
    {
        for n in [0, 7, 10, 65_535, u64::MAX] {
            assert_eq!(decimal_text(n), n.to_string());
            assert_eq!(parse_unsigned(&decimal_text(n), u64::MAX), Some(n));
        }
        assert_eq!(parse_unsigned("+5", 255), Some(5));
        assert_eq!(parse_unsigned("256", 255), None);
        assert_eq!(parse_unsigned("", 255), None);
        assert_eq!(parse_unsigned("-1", 255), None);
    }
    {
        assert_eq!(ipv4_to_text(0xAC1F_F419), "172.31.244.25");
        assert_eq!(parse_ipv4("172.31.244.25"), Some(0xAC1F_F419));
        assert_eq!(parse_ipv4("1.2.3"), None);
        assert_eq!(parse_ipv4("1.2.3.256"), None);
        assert_eq!(parse_ipv4("1.2.3.04"), None);
    }
}


#[test]
fn texts_are_sorted_cut_searched_and_mapped() {
    {
        assert_eq!(sort_texts(&owned(&["b", "a", "b"])), owned(&["a", "b", "b"]));
        assert_eq!(sort_dedup_texts(&owned(&["b", "a", "b"])), owned(&["a", "b"]));
        assert_eq!(sort_dedup_texts(&owned(&["a", "b", "a", "a"])), owned(&["a", "b"]));
        assert!(text_less("a", "ab") && !text_less("b", "ab"));
        assert_eq!(sort_ports(&vec![8080, 80]), vec![80, 8080]);
    }
    {
        assert_eq!(split_once("a=b=c", '='), Some(("a".to_owned(), "b=c".to_owned())));
        assert_eq!(split_once("abc", '='), None);
        assert_eq!(trim_end_char("x//", '/'), "x");
        assert!(contains_text("abcd", "bc") && !contains_text("abcd", "cb"));
        assert_eq!(split_words("  a\tb \n c"), owned(&["a", "b", "c"]));
        assert_eq!(split_lines("a\r\nb\n"), owned(&["a", "b"]));
        assert_eq!(trim_text("\u{2003}x \n"), "x");
    }
    {
        let mut m: TextMap<u32> = TextMap::new();
        m.insert("a", 1);
        m.insert("b", 2);
        m.insert("a", 3);
        assert_eq!(m.len(), 2);
        assert_eq!(m.get("a"), Some(&3));
        let i = m.find("a").unwrap();
        m.remove_at(i);
        assert_eq!(m.get("a"), None);
        assert_eq!(m.get("b"), Some(&2));
    }
}

#[test]
fn paths_and_names_are_made() {
    {
        assert_eq!(join("/a", "b"), "/a/b");
        assert_eq!(join("/a/", "b"), "/a/b");
        assert_eq!(name_of("/a/b.tar.gz"), Some("b.tar.gz".to_owned()));
        assert_eq!(stem_name("/a/b.tar.gz"), Some("b.tar".to_owned()));
        assert_eq!(stem_name("/a/.env"), Some(".env".to_owned()));
        assert_eq!(name_of("/"), None);
        assert_eq!(parent_dir("/w/src"), Some("/w".to_owned()));
        for p in [
            "", "/", "//", ".", "./", "..", "../", "a", "a/", "/a", "/a/", "//a", "./a", "././a", ".//a/./", "a/.", "a/..", "a/./b", "a//b/",
            "/a/b/../c", "/./a", "/.", "/..", "a/.b", ".a", ".a/.", "a/b/./.", "...", "a/...//",
        ] {
            let std_parent = std::path::Path::new(p).parent().map(|d| d.to_str().unwrap().to_owned());
            assert_eq!(parent_dir(p), std_parent, "{p:?}");
        }
    }
    {
        assert_eq!(sanitize("My/App:v2"), "my-app-v2");
        assert_eq!(to_lower("FALSE\u{c4}"), "false\u{c4}");
    }
}

#[test]
fn polls_are_bounded_and_failures_named() {
    {
        assert_eq!(poll_step(false, 90, 100, 50, 2_000), PollStep::Sleep { ms: 10, next_backoff_ms: 100 });
        assert_eq!(poll_step(false, 100, 100, 50, 2_000), PollStep::GiveUp);
        assert_eq!(poll_step(true, 500, 100, 50, 2_000), PollStep::Ready);
    }
    {
        let m = command_failure("ip", &owned(&["link", "del", "x"]), "Cannot find device");
        assert!(m.contains("ip") && m.contains("Cannot find device"), "{m}");
    }
}

