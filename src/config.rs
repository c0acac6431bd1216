use vstd::prelude::*;
use vstd::string::*;

verus! {

/// Whether `c` is an ASCII decimal digit.
pub open spec fn is_digit(c: char) -> bool {
    48 <= (c as u32) <= 57
}

/// The number that a run of decimal digits spells.
pub open spec fn digits_value(d: Seq<char>) -> nat
    decreases d.len(),
{
    if d.len() == 0 {
        0
    } else {
        digits_value(d.drop_last()) * 10 + ((d.last() as u32) - 48) as nat
    }
}

/// The digits of an unsigned decimal: the text after one optional `+`.
pub open spec fn unsigned_digits(s: Seq<char>) -> Seq<char> {
    if s.len() > 0 && s[0] == '+' {
        s.drop_first()
    } else {
        s
    }
}

/// An unsigned decimal no greater than `max`: an optional `+` followed by
/// one or more ASCII digits.
pub open spec fn parse_unsigned(s: Seq<char>, max: nat) -> Option<nat> {
    let d = unsigned_digits(s);
    if d.len() > 0 && (forall|i: int| 0 <= i < d.len() ==> is_digit(#[trigger] d[i]))
        && digits_value(d) <= max {
        Some(digits_value(d))
    } else {
        None
    }
}

proof fn lemma_digits_grow(d: Seq<char>, i: int, j: int)
    requires
        0 <= i <= j <= d.len(),
        forall|k: int| 0 <= k < d.len() ==> is_digit(#[trigger] d[k]),
    ensures
        digits_value(d.take(i)) <= digits_value(d.take(j)),
    decreases j - i,
{
    if i < j {
        lemma_digits_grow(d, i, j - 1);
        assert(d.take(j).drop_last() =~= d.take(j - 1));
        assert(is_digit(d[j - 1]));
    }
}

/// Reads an unsigned decimal bounded by `max`, as `str::parse` does for
/// unsigned integer types.
pub fn parse_decimal(s: &str, max: u64) -> (r: Option<u64>)
    ensures
        r == (match parse_unsigned(s@, max as nat) {
            Some(v) => Some(v as u64),
            None => None::<u64>,
        }),
{
    let n = s.unicode_len();
    if n == 0 {
        return None;
    }
    let start: usize = if s.get_char(0) == '+' {
        1
    } else {
        0
    };
    let ghost d = unsigned_digits(s@);
    assert(d =~= s@.subrange(start as int, n as int));
    if start >= n {
        return None;
    }
    let mut value: u64 = 0;
    let mut i: usize = start;
    while i < n
        invariant
            start <= i <= n,
            n == s@.len(),
            d == s@.subrange(start as int, n as int),
            d == unsigned_digits(s@),
            forall|k: int| 0 <= k < i - start ==> is_digit(#[trigger] d[k]),
            value as nat == digits_value(d.take(i - start)),
            value <= max,
        decreases n - i,
    {
        let c = s.get_char(i);
        assert(c == d[i - start]);
        let code = c as u32;
        if !(48 <= code && code <= 57) {
            assert(!is_digit(d[i - start]));
            return None;
        }
        assert(d.take(i - start + 1).drop_last() =~= d.take(i - start));
        let digit = (code - 48) as u64;
        assert(digits_value(d.take(i - start + 1)) == value * 10 + digit);
        let next = match value.checked_mul(10) {
            Some(m) => m.checked_add(digit),
            None => None,
        };
        match next {
            Some(v) => {
                if v > max {
                    proof {
                        if forall|k: int| 0 <= k < d.len() ==> is_digit(#[trigger] d[k]) {
                            lemma_digits_grow(d, i - start + 1, d.len() as int);
                            assert(d.take(d.len() as int) =~= d);
                        }
                    }
                    return None;
                }
                value = v;
            },
            None => {
                proof {
                    if forall|k: int| 0 <= k < d.len() ==> is_digit(#[trigger] d[k]) {
                        lemma_digits_grow(d, i - start + 1, d.len() as int);
                        assert(d.take(d.len() as int) =~= d);
                    }
                }
                return None;
            },
        }
        i = i + 1;
    }
    assert(d.take(i - start) =~= d);
    Some(value)
}

/// Whether two strings hold the same characters.
pub fn same_text(a: &str, b: &str) -> (r: bool)
    ensures
        r == (a@ == b@),
{
    let n = a.unicode_len();
    if n != b.unicode_len() {
        return false;
    }
    let mut i: usize = 0;
    while i < n
        invariant
            i <= n,
            n == a@.len(),
            n == b@.len(),
            a@.take(i as int) == b@.take(i as int),
        decreases n - i,
    {
        if a.get_char(i) != b.get_char(i) {
            assert(a@[i as int] != b@[i as int]);
            return false;
        }
        assert(a@.take(i + 1) =~= a@.take(i as int).push(a@[i as int]));
        assert(b@.take(i + 1) =~= b@.take(i as int).push(b@[i as int]));
        i = i + 1;
    }
    assert(a@ =~= a@.take(n as int));
    assert(b@ =~= b@.take(n as int));
    true
}


/// Settings read from the command line.
pub struct Config {
    pub scene_path: String,
    pub image_path: String,
    pub max_path_length: Option<usize>,
    pub initial_sample_count: Option<u64>,
    pub average_samples_per_pixel: Option<u64>,
}

/// The flags seen so far while reading the command line.
pub ghost struct Flags {
    pub scene_path: Option<Seq<char>>,
    pub image_path: Option<Seq<char>>,
    pub max_path_length: Option<nat>,
    pub initial_sample_count: Option<nat>,
    pub average_samples_per_pixel: Option<nat>,
}

pub open spec fn no_flags() -> Flags {
    Flags {
        scene_path: None,
        image_path: None,
        max_path_length: None,
        initial_sample_count: None,
        average_samples_per_pixel: None,
    }
}

pub open spec fn text_of(s: Option<String>) -> Option<Seq<char>> {
    match s {
        Some(t) => Some(t@),
        None => None,
    }
}

pub open spec fn count_of_usize(v: Option<usize>) -> Option<nat> {
    match v {
        Some(n) => Some(n as nat),
        None => None,
    }
}

pub open spec fn count_of_u64(v: Option<u64>) -> Option<nat> {
    match v {
        Some(n) => Some(n as nat),
        None => None,
    }
}

/// Reads the flag/value pairs of `args` from position `i` on, on top of
/// `f`. Each flag takes the value that follows it; a later occurrence of a
/// flag replaces an earlier one.
pub open spec fn scan_flags(args: Seq<Seq<char>>, i: nat, f: Flags) -> Result<Flags, Seq<char>>
    decreases args.len() - i,
{
    if i >= args.len() {
        Ok(f)
    } else {
        let flag = args[i as int];
        let has_value = i + 1 < args.len();
        let value = args[i + 1 as int];
        if flag == "--scene"@ {
            if !has_value {
                Err("no argument for --scene provided"@)
            } else {
                scan_flags(args, i + 2, Flags { scene_path: Some(value), ..f })
            }
        } else if flag == "--image"@ {
            if !has_value {
                Err("no argument for --image provided"@)
            } else {
                scan_flags(args, i + 2, Flags { image_path: Some(value), ..f })
            }
        } else if flag == "--max-path-length"@ {
            if !has_value {
                Err("no argument for --max-path-length provided"@)
            } else if parse_unsigned(value, usize::MAX as nat) is None {
                Err("could not parse --max-path-length value"@)
            } else {
                scan_flags(
                    args,
                    i + 2,
                    Flags { max_path_length: parse_unsigned(value, usize::MAX as nat), ..f },
                )
            }
        } else if flag == "--initial-sample-count"@ {
            if !has_value {
                Err("no argument for --initial-sample-count provided"@)
            } else if parse_unsigned(value, u64::MAX as nat) is None {
                Err("could not parse --initial-sample-count value"@)
            } else {
                scan_flags(
                    args,
                    i + 2,
                    Flags { initial_sample_count: parse_unsigned(value, u64::MAX as nat), ..f },
                )
            }
        } else if flag == "--average-samples-per-pixel"@ {
            if !has_value {
                Err("no argument for --average-samples-per-pixel provided"@)
            } else if parse_unsigned(value, u64::MAX as nat) is None {
                Err("could not parse --average-samples-per-pixel value"@)
            } else {
                scan_flags(
                    args,
                    i + 2,
                    Flags {
                        average_samples_per_pixel: parse_unsigned(value, u64::MAX as nat),
                        ..f
                    },
                )
            }
        } else {
            Err("unknown flag: "@ + flag)
        }
    }
}

/// The settings that a command line gives, its first word being the
/// program's name: every flag read, and both paths present.
pub open spec fn parse_args(args: Seq<Seq<char>>) -> Result<Flags, Seq<char>> {
    match scan_flags(args, 1, no_flags()) {
        Err(e) => Err(e),
        Ok(f) => if f.scene_path is None {
            Err("--scene is required"@)
        } else if f.image_path is None {
            Err("--image is required"@)
        } else {
            Ok(f)
        },
    }
}

pub open spec fn texts(args: Seq<String>) -> Seq<Seq<char>> {
    args.map_values(|a: String| a@)
}

impl Config {
    pub open spec fn flags(&self) -> Flags {
        Flags {
            scene_path: Some(self.scene_path@),
            image_path: Some(self.image_path@),
            max_path_length: count_of_usize(self.max_path_length),
            initial_sample_count: count_of_u64(self.initial_sample_count),
            average_samples_per_pixel: count_of_u64(self.average_samples_per_pixel),
        }
    }

    /// Reads `--scene`, `--image`, `--max-path-length`,
    /// `--initial-sample-count` and `--average-samples-per-pixel`, each
    /// followed by its value, from the words after the program's name.
    pub fn parse(args: Vec<String>) -> (r: Result<Config, String>)
        requires
            args.len() >= 1,
        ensures
            r is Ok <==> parse_args(texts(args@)) is Ok,
            r is Ok ==> r->Ok_0.flags() == parse_args(texts(args@))->Ok_0,
            r is Err ==> r->Err_0@ == parse_args(texts(args@))->Err_0,
    {
        let ghost a = texts(args@);
        let n = args.len();
        let mut scene_path: Option<String> = None;
        let mut image_path: Option<String> = None;
        let mut max_path_length: Option<usize> = None;
        let mut initial_sample_count: Option<u64> = None;
        let mut average_samples_per_pixel: Option<u64> = None;
        let mut i: usize = 1;
        while i < n
            invariant
                1 <= i,
                n == args.len(),
                a == texts(args@),
                a.len() == n,
                scan_flags(a, 1, no_flags()) == scan_flags(
                    a,
                    i as nat,
                    Flags {
                        scene_path: text_of(scene_path),
                        image_path: text_of(image_path),
                        max_path_length: count_of_usize(max_path_length),
                        initial_sample_count: count_of_u64(initial_sample_count),
                        average_samples_per_pixel: count_of_u64(average_samples_per_pixel),
                    },
                ),
            decreases n - i,
        {
            let flag = args[i].as_str();
            assert(flag@ == a[i as int]);
            let has_value = i + 1 < n;
            if same_text(flag, "--scene") {
                if !has_value {
                    return Err(String::from_str("no argument for --scene provided"));
                }
                assert(a[i + 1] == args@[i + 1]@);
                scene_path = Some(args[i + 1].clone());
            } else if same_text(flag, "--image") {
                if !has_value {
                    return Err(String::from_str("no argument for --image provided"));
                }
                assert(a[i + 1] == args@[i + 1]@);
                image_path = Some(args[i + 1].clone());
            } else if same_text(flag, "--max-path-length") {
                if !has_value {
                    return Err(String::from_str("no argument for --max-path-length provided"));
                }
                assert(a[i + 1] == args@[i + 1]@);
                match parse_decimal(args[i + 1].as_str(), usize::MAX as u64) {
                    Some(v) => {
                        max_path_length = Some(v as usize);
                    },
                    None => {
                        return Err(String::from_str("could not parse --max-path-length value"));
                    },
                }
            } else if same_text(flag, "--initial-sample-count") {
                if !has_value {
                    return Err(
                        String::from_str("no argument for --initial-sample-count provided"),
                    );
                }
                assert(a[i + 1] == args@[i + 1]@);
                match parse_decimal(args[i + 1].as_str(), u64::MAX) {
                    Some(v) => {
                        initial_sample_count = Some(v);
                    },
                    None => {
                        return Err(
                            String::from_str("could not parse --initial-sample-count value"),
                        );
                    },
                }
            } else if same_text(flag, "--average-samples-per-pixel") {
                if !has_value {
                    return Err(
                        String::from_str("no argument for --average-samples-per-pixel provided"),
                    );
                }
                assert(a[i + 1] == args@[i + 1]@);
                match parse_decimal(args[i + 1].as_str(), u64::MAX) {
                    Some(v) => {
                        average_samples_per_pixel = Some(v);
                    },
                    None => {
                        return Err(
                            String::from_str("could not parse --average-samples-per-pixel value"),
                        );
                    },
                }
            } else {
                return Err(String::from_str("unknown flag: ").concat(flag));
            }
            i = i + 2;
        }
        match (scene_path, image_path) {
            (Some(scene_path), Some(image_path)) => Ok(
                Config {
                    scene_path,
                    image_path,
                    max_path_length,
                    initial_sample_count,
                    average_samples_per_pixel,
                },
            ),
            (None, _) => Err(String::from_str("--scene is required")),
            (_, None) => Err(String::from_str("--image is required")),
        }
    }
}

} // verus!
