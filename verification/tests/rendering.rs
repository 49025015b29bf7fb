use rgaussian16::decimal::{decimal_i64, decimal_u64};
use rgaussian16::{ConfigErrorKind, GaussConfig, Gaussian, Validator};

fn sample() -> GaussConfig {
    GaussConfig {
        mem: "134GB".to_string(),
        cpu: "0-39".to_string(),
        gpu: None,
        checkpoint: "test.chk".to_string(),
        key_words: "#p BP86/Def2svp/W06 SCF=XQC".to_string(),
        title: "title card".to_string(),
        charge: 0,
        multiplicity: 1,
    }
}

fn sample_with_gpu(gpu: &str) -> GaussConfig {
    let mut config = sample();
    config.gpu = Some(gpu.to_string());
    config
}

fn lines_of(text: &str) -> Vec<&str> {
    text.split('\n').collect()
}

#[test]
fn renders_processor_job() {
    let job = Gaussian::new(sample()).unwrap();
    assert_eq!(
        job.display(),
        "%Mem=134GB\n%Cpu=0-39\n%Check=test.chk\n#p BP86/Def2svp/W06 SCF=XQC\n\n title card\n\n0 1"
    );
}

#[test]
fn validates_and_renders_from_end_to_end() {
    let config = sample();
    assert!(Validator::validate_config(&config).is_ok());
    let job = Gaussian::new(config).unwrap();
    let expected =
        "%Mem=134GB\n%Cpu=0-39\n%Check=test.chk\n#p BP86/Def2svp/W06 SCF=XQC\n\n title card\n\n0 1";
    assert_eq!(job.display(), expected);
    assert_eq!(job.cpu_output(), expected);
    assert_eq!(job.gen_input(), expected.as_bytes());
}

#[test]
fn renders_gpu_job() {
    let job = Gaussian::new(sample_with_gpu("0=0")).unwrap();
    assert_eq!(
        job.display(),
        "%Mem=134GB\n%Cpu=0-39\n%Gpu=0=0\n%Check=test.chk\n#p BP86/Def2svp/W06 SCF=XQC\n\n title card\n\n0 1"
    );
}

#[test]
fn processor_layout_has_eight_lines() {
    let job = Gaussian::new(sample()).unwrap();
    let text = job.cpu_output();
    assert_eq!(
        lines_of(&text),
        vec![
            "%Mem=134GB",
            "%Cpu=0-39",
            "%Check=test.chk",
            "#p BP86/Def2svp/W06 SCF=XQC",
            "",
            " title card",
            "",
            "0 1",
        ]
    );
}

#[test]
fn gpu_layout_has_the_gpu_line_after_the_processor_line() {
    let job = Gaussian::new(sample()).unwrap();
    let text = job.gpu_output("0-4=0-9".to_string());
    assert_eq!(
        lines_of(&text),
        vec![
            "%Mem=134GB",
            "%Cpu=0-39",
            "%Gpu=0-4=0-9",
            "%Check=test.chk",
            "#p BP86/Def2svp/W06 SCF=XQC",
            "",
            " title card",
            "",
            "0 1",
        ]
    );
}

#[test]
fn job_without_gpu_has_no_gpu_line() {
    let text = Gaussian::new(sample()).unwrap().display();
    assert!(lines_of(&text).iter().all(|line| !line.starts_with("%Gpu=")));
    assert!(!text.contains("%Gpu="));
}

#[test]
fn job_with_gpu_has_one_gpu_line_between_processor_and_checkpoint() {
    let text = Gaussian::new(sample_with_gpu("0=0")).unwrap().display();
    let lines = lines_of(&text);
    let found: Vec<usize> = (0..lines.len()).filter(|&i| lines[i].starts_with("%Gpu=")).collect();
    assert_eq!(found, vec![2]);
    assert_eq!(lines[2], "%Gpu=0=0");
    assert!(lines[1].starts_with("%Cpu="));
    assert!(lines[3].starts_with("%Check="));
    assert_eq!(text.find("%Gpu="), Some("%Mem=134GB\n%Cpu=0-39\n".len()));
}

#[test]
fn display_chooses_the_layout_by_the_gpu_field_alone() {
    let plain = Gaussian::new(sample()).unwrap();
    assert_eq!(plain.display(), plain.cpu_output());
    let gpu = Gaussian::new(sample_with_gpu("0,1,2=0,1")).unwrap();
    assert_eq!(gpu.display(), gpu.gpu_output("0,1,2=0,1".to_string()));
    assert_ne!(gpu.display(), gpu.cpu_output());
}

#[test]
fn rendering_twice_gives_the_same_text() {
    let job = Gaussian::new(sample_with_gpu("0-4=0-9")).unwrap();
    let first = job.display();
    let second = job.display();
    assert_eq!(first.as_bytes(), second.as_bytes());
    let other = Gaussian::new(sample_with_gpu("0-4=0-9")).unwrap();
    assert_eq!(other.display().as_bytes(), first.as_bytes());
    assert_eq!(job.clone().display(), first);
}

#[test]
fn input_is_the_text_in_bytes() {
    let job = Gaussian::new(sample()).unwrap();
    let text = job.display();
    assert_eq!(job.gen_input(), text.into_bytes());
    let mut config = sample();
    config.title = "\u{00E9}thane \u{2192} \u{00E9}th\u{00E8}ne".to_string();
    let job = Gaussian::new(config).unwrap();
    let text = job.display();
    assert!(text.contains("\n\n \u{00E9}thane \u{2192} \u{00E9}th\u{00E8}ne\n\n"));
    assert_eq!(job.gen_input(), text.as_bytes().to_vec());
}

#[test]
fn fields_are_written_as_they_are() {
    let mut config = sample();
    config.mem = "  134GB \"quoted\"".to_string();
    config.checkpoint = "dir with space/test 1.chk".to_string();
    config.title = "".to_string();
    let text = Gaussian::new(config).unwrap().display();
    assert_eq!(
        text,
        "%Mem=  134GB \"quoted\"\n%Cpu=0-39\n%Check=dir with space/test 1.chk\n#p BP86/Def2svp/W06 SCF=XQC\n\n \n\n0 1"
    );
}

#[test]
fn value_with_a_line_feed_brings_lines_of_its_own() {
    let mut config = sample();
    config.title = "title\n%Gpu=9=9".to_string();
    let text = Gaussian::new(config).unwrap().display();
    let lines = lines_of(&text);
    assert_eq!(lines.len(), 9);
    assert_eq!(lines[6], "%Gpu=9=9");
}

#[test]
fn charge_and_multiplicity_are_written_in_decimal() {
    let mut config = sample();
    config.charge = -2;
    config.multiplicity = 3;
    assert!(Gaussian::new(config).unwrap().display().ends_with("\n\n-2 3"));
    let mut config = sample();
    config.charge = i64::MIN;
    config.multiplicity = u64::MAX;
    assert!(Gaussian::new(config)
        .unwrap()
        .display()
        .ends_with("\n\n-9223372036854775808 18446744073709551615"));
    let mut config = sample();
    config.charge = i64::MAX;
    config.multiplicity = 0;
    assert!(Gaussian::new(config).unwrap().display().ends_with("\n\n9223372036854775807 0"));
}

#[test]
fn decimal_of_unsigned_numbers() {
    assert_eq!(decimal_u64(0), "0");
    assert_eq!(decimal_u64(7), "7");
    assert_eq!(decimal_u64(10), "10");
    assert_eq!(decimal_u64(1234567890), "1234567890");
    assert_eq!(decimal_u64(u64::MAX), "18446744073709551615");
    for n in [0u64, 9, 10, 99, 100, 101, 1000, 4096, 65535, 1 << 40] {
        assert_eq!(decimal_u64(n), n.to_string());
    }
}

#[test]
fn decimal_of_signed_numbers() {
    assert_eq!(decimal_i64(0), "0");
    assert_eq!(decimal_i64(-1), "-1");
    assert_eq!(decimal_i64(42), "42");
    assert_eq!(decimal_i64(-120), "-120");
    assert_eq!(decimal_i64(i64::MAX), "9223372036854775807");
    assert_eq!(decimal_i64(i64::MIN), "-9223372036854775808");
    for i in [-1000000i64, -10, -9, 9, 10, 1 << 40, i64::MIN + 1] {
        assert_eq!(decimal_i64(i), i.to_string());
    }
}

#[test]
fn new_accepts_a_valid_configuration() {
    let job = Gaussian::new(sample_with_gpu("0=0")).unwrap();
    let held = job.config();
    assert_eq!(held.mem, "134GB");
    assert_eq!(held.cpu, "0-39");
    assert_eq!(held.gpu.as_deref(), Some("0=0"));
    assert_eq!(held.checkpoint, "test.chk");
    assert_eq!(held.key_words, "#p BP86/Def2svp/W06 SCF=XQC");
    assert_eq!(held.title, "title card");
    assert_eq!(held.charge, 0);
    assert_eq!(held.multiplicity, 1);
}

#[test]
fn new_turns_down_an_invalid_configuration() {
    let mut config = sample();
    config.mem = "134".to_string();
    assert_eq!(*Gaussian::new(config).unwrap_err().kind(), ConfigErrorKind::Memory);
    let mut config = sample();
    config.cpu = "abc".to_string();
    assert_eq!(*Gaussian::new(config).unwrap_err().kind(), ConfigErrorKind::CPU);
    let mut config = sample();
    config.key_words = "no marker here".to_string();
    assert_eq!(*Gaussian::new(config).unwrap_err().kind(), ConfigErrorKind::KeyWords);
    assert_eq!(
        *Gaussian::new(sample_with_gpu("0=0-1=2-3")).unwrap_err().kind(),
        ConfigErrorKind::GPU
    );
    assert_eq!(*Gaussian::new(sample_with_gpu("none")).unwrap_err().kind(), ConfigErrorKind::GPU);
}
