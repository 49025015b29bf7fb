use regex::Regex;
use rgaussian16::grammar::{
    chars_of, digit, digits_end, has_cpu_range, has_gpu_list, has_gpu_pair, has_gpu_range,
    has_marker, has_memory, letter, unit_byte, unit_scale,
};

// Every text of up to `longest` characters over `alphabet`.
fn texts(alphabet: &[char], longest: usize) -> Vec<String> {
    let mut all = vec![String::new()];
    let mut last = vec![String::new()];
    for _ in 0..longest {
        let mut next = Vec::new();
        for text in &last {
            for c in alphabet {
                let mut longer = text.clone();
                longer.push(*c);
                next.push(longer);
            }
        }
        all.extend(next.iter().cloned());
        last = next;
    }
    all
}

fn agree(pattern: &str, matcher: fn(&[char]) -> bool, alphabet: &[char], longest: usize) {
    let pattern = Regex::new(pattern).unwrap();
    for text in texts(alphabet, longest) {
        assert_eq!(matcher(&chars_of(&text)), pattern.is_match(&text), "{:?}", text);
    }
}

#[test]
fn chars_of_gives_the_characters_in_order() {
    assert_eq!(chars_of(""), Vec::<char>::new());
    assert_eq!(chars_of("0-39"), vec!['0', '-', '3', '9']);
    assert_eq!(chars_of("\u{00E9}t\u{2192}\n"), vec!['\u{00E9}', 't', '\u{2192}', '\n']);
}

#[test]
fn digits_and_letters_are_the_ascii_ones() {
    for c in ['0', '5', '9'] {
        assert!(digit(c));
        assert!(!letter(c));
    }
    for c in ['a', 'z', 'A', 'Z', 'p', 'N'] {
        assert!(letter(c));
        assert!(!digit(c));
    }
    for c in ['/', ':', '@', '[', '`', '{', ' ', '\n', '\u{0663}', '\u{00E9}', '\u{212A}'] {
        assert!(!digit(c), "{:?}", c);
        assert!(!letter(c), "{:?}", c);
    }
}

#[test]
fn memory_units_are_written_in_either_case() {
    for c in ['k', 'K', 'm', 'M', 'g', 'G', 't', 'T'] {
        assert!(unit_scale(c), "{:?}", c);
        assert!(!unit_byte(c), "{:?}", c);
    }
    assert!(unit_byte('b'));
    assert!(unit_byte('B'));
    for c in ['p', 'P', 'b', 'B', '0', ' ', '\u{212A}'] {
        assert!(!unit_scale(c), "{:?}", c);
    }
}

#[test]
fn gpu_examples_have_one_form_each() {
    let forms = |text: &str| {
        let chars = chars_of(text);
        (has_gpu_list(&chars), has_gpu_range(&chars), has_gpu_pair(&chars))
    };
    assert_eq!(forms("0,1,2=0,1"), (true, false, false));
    assert_eq!(forms("0-4=0-9"), (false, true, false));
    assert_eq!(forms("0=0"), (false, false, true));
    assert_eq!(forms("1,2=0,3"), (true, false, false));
    assert_eq!(forms("1-10=0-9"), (false, true, false));
}

#[test]
fn gpu_forms_may_meet_in_one_text() {
    let forms = |text: &str| {
        let chars = chars_of(text);
        (has_gpu_list(&chars), has_gpu_range(&chars), has_gpu_pair(&chars))
    };
    assert_eq!(forms("0=0-1=2-3"), (false, true, true));
    assert_eq!(forms("0,1=0,1-2=3-4"), (true, true, false));
    assert_eq!(forms("no assignment"), (false, false, false));
    assert_eq!(forms(""), (false, false, false));
}

#[test]
fn digits_end_where_the_run_of_digits_ends() {
    let text = chars_of("12ab345");
    assert_eq!(digits_end(&text, 0), 2);
    assert_eq!(digits_end(&text, 1), 2);
    assert_eq!(digits_end(&text, 2), 2);
    assert_eq!(digits_end(&text, 4), 7);
    assert_eq!(digits_end(&text, 7), 7);
}

#[test]
fn memory_grammar_agrees_with_its_pattern() {
    agree("[0-9][kKmMgGtT][bB]", has_memory, &['1', 'k', 'G', 'b', 'B', 'x'], 5);
    agree("[0-9][kKmMgGtT][bB]", has_memory, &['0', '9', 'M', 'm', 't', 'T', 'g', 'K', 'b'], 4);
}

#[test]
fn cpu_grammar_agrees_with_its_pattern() {
    agree("^[0-9]-[0-9]", has_cpu_range, &['0', '9', '-', 'x', ' '], 5);
}

#[test]
fn key_words_grammar_agrees_with_its_pattern() {
    agree("#[a-zA-Z]", has_marker, &['#', 'p', 'Z', '1', ' ', 'a'], 5);
}

#[test]
fn gpu_list_grammar_agrees_with_its_pattern() {
    agree("^[0-9](,[0-9])+=[0-9](,[0-9])+", has_gpu_list, &['0', ',', '=', 'x'], 9);
}

#[test]
fn gpu_range_grammar_agrees_with_its_pattern() {
    agree("-[0-9]+=[0-9]*-[0-9]", has_gpu_range, &['1', '-', '=', 'x'], 9);
}

#[test]
fn gpu_pair_grammar_agrees_with_its_pattern() {
    agree("^[0-9]=[0-9]", has_gpu_pair, &['0', '7', '=', 'x', ','], 5);
}
