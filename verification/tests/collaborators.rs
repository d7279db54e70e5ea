use neviraller::dependencies::Dependency;
use neviraller::neovim_nightly::scrap::{scrap, version_from, ScrapError};
use neviraller::neovim_nightly::update_offer::{classify_answer, classify_word, Answer};
use neviraller::neovim_nightly::ver_compare::{check_neovim_version, NeovimVersionError};
use neviraller::package_manager::{detect_package_managers, managers};
use neviraller::text::{
    count_occurrences, is_before, join, remove_all, run_from, same_text, stands_at,
    take_first_line, take_second_word, trim, whitespace,
};

#[test]
fn dependency_keeps_its_description() {
    let d = Dependency::new(
        "ripgrep",
        "rg",
        "apt",
        "sudo apt install ripgrep",
        "search",
        Some("https://example.org/rg".to_string()),
        true,
    );
    assert_eq!(d.name(), "ripgrep");
    assert_eq!(d.command(), "rg");
    assert_eq!(d.package_manager(), "apt");
    assert_eq!(d.install_command(), "sudo apt install ripgrep");
    assert_eq!(d.description(), "search");
    assert_eq!(d.git_repo(), Some("https://example.org/rg"));
    assert!(d.optional());
    let c = d.clone();
    assert_eq!(c.name(), "ripgrep");
    assert_eq!(c.git_repo(), Some("https://example.org/rg"));
}

#[test]
fn dependency_is_installed_when_the_search_printed_something() {
    let d = Dependency::new("git", "git", "apt", "apt install git", "", None, false);
    assert!(d.is_installed(Some(13)));
    assert!(!d.is_installed(Some(0)));
    assert!(!d.is_installed(None));
    assert_eq!(d.git_repo(), None);
}

#[test]
fn failed_installation_names_the_program() {
    let d = Dependency::new("git", "git", "apt", "apt install git", "", None, false);
    assert_eq!(d.install(true), Ok(()));
    assert_eq!(d.install(false), Err("Failed to install git".to_string()));
}

#[test]
fn available_managers_are_those_that_were_found() {
    assert_eq!(
        managers(),
        vec!["apt", "yum", "dnf", "pacman", "zypper", "brew", "yay", "paru"]
    );
    let found = vec![true, false, false, true, false, false, false, true];
    assert_eq!(detect_package_managers(&found), vec!["apt", "pacman", "paru"]);
    assert_eq!(detect_package_managers(&vec![false, true]), vec!["yum"]);
    assert!(detect_package_managers(&Vec::new()).is_empty());
    assert_eq!(detect_package_managers(&vec![true; 12]).len(), 8);
}

#[test]
fn newer_version_is_reported() {
    let printed = "NVIM v0.9.5\nBuild type: Release\nLuaJIT 2.1\n";
    let r = check_neovim_version(printed, "v0.10.0-dev-2671\nBuild type: Release").unwrap();
    assert_eq!(
        r,
        "Current installed Neovim version: v0.9.5\nThere is a newer version of Neovim Nightly available: v0.10.0-dev-2671"
    );
}

#[test]
fn version_errors() {
    let e = check_neovim_version("", "v1").unwrap_err();
    assert_eq!(e.to_string(), "Failed to get the current Neovim version.");
    let e = check_neovim_version("NVIM\nv0.9.5", "v1").unwrap_err();
    assert_eq!(e.message(), "Failed to parse the current Neovim version.");
    let e = check_neovim_version("\nNVIM v0.9.5", "v1").unwrap_err();
    assert_eq!(e.message(), "Failed to parse the current Neovim version.");
    let e = check_neovim_version("NVIM v0.9.5", "").unwrap_err();
    assert_eq!(e.message(), "Failed to retrieve new version information.");
    let e = check_neovim_version("NVIM   v0.9.5  x\r\nmore", "v0.9.5\r\nmore").unwrap_err();
    assert_eq!(e.message(), "Already up to date.");
    assert_eq!(NeovimVersionError::new("m").to_string(), "m");
}

#[test]
fn version_is_read_from_the_release_page() {
    let page = "<html><body><div class=\"markdown-body\"><p>notes</p>\
        <pre><code>\nNVIM v0.10.0-dev-2671+gdc110cba3c\nBuild type: Release\nLuaJIT 2.1.1710088188\n</code></pre>\
        <pre><code>second</code></pre></div></body></html>";
    assert_eq!(
        scrap(page),
        Ok("v0.10.0-dev-2671+gdc110cba3c\nBuild type: Release\nLuaJIT 2.1.1710088188".to_string())
    );
    assert_eq!(
        scrap("<html><body><pre><code>NVIM v1</code></pre></body></html>"),
        Err(ScrapError::Missing)
    );
    assert_eq!(scrap(""), Err(ScrapError::Missing));
    assert_eq!(ScrapError::Missing.message(), "Couldn't find information about new version");
    assert_eq!(ScrapError::Selector.message(), "The place of the version cannot be selected");
    assert_eq!(
        scrap("<div class=markdown-body><pre><code>a <b>NVIM </b>b</code></pre></div>"),
        Ok("a b".to_string())
    );
}

#[test]
fn version_from_the_text_at_its_place() {
    assert_eq!(
        version_from(Some(vec!["  NVIM v1 ".to_string(), "NVIM x \n".to_string()])),
        Ok("v1 x".to_string())
    );
    assert_eq!(
        version_from(Some(vec!["NV".to_string(), "IM v2".to_string()])),
        Ok("v2".to_string())
    );
    assert_eq!(version_from(Some(Vec::new())), Ok(String::new()));
    assert_eq!(version_from(None), Err(ScrapError::Missing));
}

#[test]
fn answers_to_the_offer() {
    assert_eq!(classify_answer("yes\n"), Answer::Yes);
    assert_eq!(classify_answer("  Y  "), Answer::Yes);
    assert_eq!(classify_answer("YES"), Answer::Yes);
    assert_eq!(classify_answer("no"), Answer::No);
    assert_eq!(classify_answer("\tN\r\n"), Answer::No);
    assert_eq!(classify_answer(""), Answer::Invalid);
    assert_eq!(classify_answer("maybe"), Answer::Invalid);
    assert_eq!(classify_answer("y e s"), Answer::Invalid);
    assert_eq!(classify_word("yes"), Answer::Yes);
    assert_eq!(classify_word("Yes"), Answer::Invalid);
}

#[test]
fn text_helpers() {
    assert!(same_text("abc", "abc"));
    assert!(!same_text("abc", "abd"));
    assert!(!same_text("abc", "ab"));
    assert!(same_text("", ""));
    assert_eq!(count_occurrences("a\nb\n\nc", '\n'), 3);
    assert_eq!(count_occurrences("", '\n'), 0);
    assert!(is_before("Char('j')", "Char('k')"));
    assert!(is_before("Char('q')", "Down"));
    assert!(is_before("Esc", "Up"));
    assert!(is_before("", "a"));
    assert!(is_before("ab", "abc"));
    assert!(!is_before("abc", "ab"));
    assert!(!is_before("a", "a"));
    assert!(!is_before("b", "a"));
    assert!(is_before("z", "é"));
    assert_eq!(join(&vec!["a".to_string(), "".to_string(), "c".to_string()], " | "), "a |  | c");
    assert_eq!(join(&vec!["a".to_string()], ", "), "a");
    assert_eq!(join(&Vec::new(), ", "), "");
    assert_eq!(trim("  a b \t\n"), "a b");
    assert_eq!(trim(" \u{a0}\u{3000}x\u{2003}"), "x");
    assert_eq!(trim("   "), "");
    assert_eq!(trim(""), "");
    assert_eq!(trim("x"), "x");
    assert_eq!(run_from("  ab", 0, true), 2);
    assert_eq!(run_from("  ab", 2, false), 4);
    assert_eq!(run_from("  ab", 4, false), 4);
    assert_eq!(take_first_line("a\r\nb"), Some("a"));
    assert_eq!(take_first_line("a\rb"), Some("a\rb"));
    assert_eq!(take_first_line("\n"), Some(""));
    assert_eq!(take_first_line(""), None);
    assert_eq!(take_second_word(" one  two three"), Some("two"));
    assert_eq!(take_second_word("one "), None);
    assert_eq!(take_second_word(""), None);
    assert!(stands_at("xNVIM y", 1, "NVIM "));
    assert!(!stands_at("xNVIM y", 0, "NVIM "));
    assert!(!stands_at("NVI", 0, "NVIM "));
    assert_eq!(remove_all("NVIM NVIM vNVIM", "NVIM "), "vNVIM");
    assert_eq!(remove_all("aaa", "aa"), "a");
    assert_eq!(remove_all("abc", ""), "abc");
    assert_eq!(remove_all("", "x"), "");
}

#[test]
fn white_space_is_what_the_standard_library_takes_for_it() {
    for n in 0u32..=0x10FFFF {
        if let Some(c) = char::from_u32(n) {
            assert_eq!(whitespace(c), c.is_whitespace(), "U+{:04X}", n);
        }
    }
}

#[test]
fn trimming_and_splitting_agree_with_the_standard_library() {
    let samples = [
        "",
        " ",
        "a",
        "  a  ",
        "\t\na b\r\n",
        "\u{a0}x y\u{2003}z\u{3000}",
        "one two  three",
        "NVIM v0.9.5\nBuild",
        "\r\n",
        "a\r",
    ];
    for s in samples {
        assert_eq!(trim(s), s.trim(), "{:?}", s);
        assert_eq!(take_first_line(s), s.lines().next(), "{:?}", s);
        assert_eq!(take_second_word(s), s.split_whitespace().nth(1), "{:?}", s);
        assert_eq!(remove_all(s, "NVIM "), s.replace("NVIM ", ""), "{:?}", s);
        assert_eq!(remove_all(s, " "), s.replace(' ', ""), "{:?}", s);
        assert_eq!(count_occurrences(s, '\n'), s.matches('\n').count(), "{:?}", s);
    }
}
