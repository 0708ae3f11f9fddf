//! Java: the portable builds the launcher installs, where they live, and
//! the major version a `java -version` report names.

use vstd::prelude::*;
use crate::error::LauncherError;
use crate::path::{join_path, path_join};
use crate::platform::Platform;
use crate::text::{chars_of, split_char, split_spec, lemma_split_nonempty};

verus! {

/// The release name and archive URL of the portable Java build installed
/// for a major version on a system; 8, 16, 17 and 21 are offered.
pub open spec fn java_download_spec(platform: Platform, version: i64) -> Option<(Seq<char>, Seq<char>)> {
    if version == 8 {
        Some(("jdk8u472-b08"@, match platform {
            Platform::Windows => "https://github.com/adoptium/temurin8-binaries/releases/download/jdk8u472-b08/OpenJDK8U-jdk_x64_windows_hotspot_8u472b08.zip"@,
            Platform::Linux => "https://github.com/adoptium/temurin8-binaries/releases/download/jdk8u472-b08/OpenJDK8U-jdk_x64_linux_hotspot_8u472b08.tar.gz"@,
            Platform::MacOs => "https://github.com/adoptium/temurin8-binaries/releases/download/jdk8u472-b08/OpenJDK8U-jdk_x64_mac_hotspot_8u472b08.tar.gz"@,
        }))
    } else if version == 16 {
        Some(("jdk-16.0.2+7"@, match platform {
            Platform::Windows => "https://github.com/adoptium/temurin16-binaries/releases/download/jdk-16.0.2%2B7/OpenJDK16U-jdk_x64_windows_hotspot_16.0.2_7.zip"@,
            Platform::Linux => "https://github.com/adoptium/temurin16-binaries/releases/download/jdk-16.0.2%2B7/OpenJDK16U-jdk_x64_linux_hotspot_16.0.2_7.tar.gz"@,
            Platform::MacOs => "https://github.com/adoptium/temurin16-binaries/releases/download/jdk-16.0.2%2B7/OpenJDK16U-jdk_x64_mac_hotspot_16.0.2_7.tar.gz"@,
        }))
    } else if version == 17 {
        Some(("jdk-17.0.5+8"@, match platform {
            Platform::Windows => "https://github.com/adoptium/temurin17-binaries/releases/download/jdk-17.0.5%2B8/OpenJDK17U-jdk_x64_windows_hotspot_17.0.5_8.zip"@,
            Platform::Linux => "https://github.com/adoptium/temurin17-binaries/releases/download/jdk-17.0.5%2B8/OpenJDK17U-jdk_x64_linux_hotspot_17.0.5_8.tar.gz"@,
            Platform::MacOs => "https://github.com/adoptium/temurin17-binaries/releases/download/jdk-17.0.5%2B8/OpenJDK17U-jdk_x64_mac_hotspot_17.0.5_8.tar.gz"@,
        }))
    } else if version == 21 {
        Some(("jdk-21.0.8+9"@, match platform {
            Platform::Windows => "https://github.com/adoptium/temurin21-binaries/releases/download/jdk-21.0.8%2B9/OpenJDK21U-jdk_x64_windows_hotspot_21.0.8_9.zip"@,
            Platform::Linux => "https://github.com/adoptium/temurin21-binaries/releases/download/jdk-21.0.8%2B9/OpenJDK21U-jdk_x64_linux_hotspot_21.0.8_9.tar.gz"@,
            Platform::MacOs => "https://github.com/adoptium/temurin21-binaries/releases/download/jdk-21.0.8%2B9/OpenJDK21U-jdk_x64_mac_hotspot_21.0.8_9.tar.gz"@,
        }))
    } else {
        None
    }
}

/// The release name and archive URL of the portable Java build for a major
/// version on a system, or `JavaVersionNotSupported` for any version but 8,
/// 16, 17 and 21 (16 being the one Minecraft 1.17 needs).
pub fn java_download_url(platform: Platform, version: i64) -> (r: Result<(String, String), LauncherError>)
    ensures
        r is Ok <==> (version == 8 || version == 16 || version == 17 || version == 21),
        r matches Ok((name, url)) ==> java_download_spec(platform, version) == Some((name@, url@)),
        r matches Err(e) ==> e == LauncherError::JavaVersionNotSupported(version),
{
    let (name, url) = match version {
        8 => ("jdk8u472-b08", match platform {
            Platform::Windows => "https://github.com/adoptium/temurin8-binaries/releases/download/jdk8u472-b08/OpenJDK8U-jdk_x64_windows_hotspot_8u472b08.zip",
            Platform::Linux => "https://github.com/adoptium/temurin8-binaries/releases/download/jdk8u472-b08/OpenJDK8U-jdk_x64_linux_hotspot_8u472b08.tar.gz",
            Platform::MacOs => "https://github.com/adoptium/temurin8-binaries/releases/download/jdk8u472-b08/OpenJDK8U-jdk_x64_mac_hotspot_8u472b08.tar.gz",
        }),
        16 => ("jdk-16.0.2+7", match platform {
            Platform::Windows => "https://github.com/adoptium/temurin16-binaries/releases/download/jdk-16.0.2%2B7/OpenJDK16U-jdk_x64_windows_hotspot_16.0.2_7.zip",
            Platform::Linux => "https://github.com/adoptium/temurin16-binaries/releases/download/jdk-16.0.2%2B7/OpenJDK16U-jdk_x64_linux_hotspot_16.0.2_7.tar.gz",
            Platform::MacOs => "https://github.com/adoptium/temurin16-binaries/releases/download/jdk-16.0.2%2B7/OpenJDK16U-jdk_x64_mac_hotspot_16.0.2_7.tar.gz",
        }),
        17 => ("jdk-17.0.5+8", match platform {
            Platform::Windows => "https://github.com/adoptium/temurin17-binaries/releases/download/jdk-17.0.5%2B8/OpenJDK17U-jdk_x64_windows_hotspot_17.0.5_8.zip",
            Platform::Linux => "https://github.com/adoptium/temurin17-binaries/releases/download/jdk-17.0.5%2B8/OpenJDK17U-jdk_x64_linux_hotspot_17.0.5_8.tar.gz",
            Platform::MacOs => "https://github.com/adoptium/temurin17-binaries/releases/download/jdk-17.0.5%2B8/OpenJDK17U-jdk_x64_mac_hotspot_17.0.5_8.tar.gz",
        }),
        21 => ("jdk-21.0.8+9", match platform {
            Platform::Windows => "https://github.com/adoptium/temurin21-binaries/releases/download/jdk-21.0.8%2B9/OpenJDK21U-jdk_x64_windows_hotspot_21.0.8_9.zip",
            Platform::Linux => "https://github.com/adoptium/temurin21-binaries/releases/download/jdk-21.0.8%2B9/OpenJDK21U-jdk_x64_linux_hotspot_21.0.8_9.tar.gz",
            Platform::MacOs => "https://github.com/adoptium/temurin21-binaries/releases/download/jdk-21.0.8%2B9/OpenJDK21U-jdk_x64_mac_hotspot_21.0.8_9.tar.gz",
        }),
        _ => {
            return Err(LauncherError::JavaVersionNotSupported(version));
        },
    };
    Ok((String::from_str(name), String::from_str(url)))
}

/// `base/runtime`: where the portable Java build is unpacked.
pub open spec fn runtime_dir_spec(base: Seq<char>) -> Seq<char> {
    path_join(base, seq!['r', 'u', 'n', 't', 'i', 'm', 'e'])
}

/// `base/runtime/bin/<java executable>`: the portable Java launcher.
pub open spec fn runtime_java_spec(base: Seq<char>, platform: Platform) -> Seq<char> {
    path_join(path_join(runtime_dir_spec(base), seq!['b', 'i', 'n']), platform.java_executable_spec())
}

/// `base/runtime`: where the portable Java build is unpacked.
pub fn runtime_dir(base_path: &str) -> (r: String)
    ensures
        r@ == runtime_dir_spec(base_path@),
{
    proof {
        reveal_strlit("runtime");
    }
    join_path(base_path, "runtime")
}

/// `base/runtime/bin/<java executable>`: the portable Java launcher.
pub fn runtime_java_path(base_path: &str, platform: Platform) -> (r: String)
    ensures
        r@ == runtime_java_spec(base_path@, platform),
{
    let runtime = runtime_dir(base_path);
    proof {
        reveal_strlit("bin");
    }
    let bin = join_path(runtime.as_str(), "bin");
    join_path(bin.as_str(), platform.java_executable())
}

/// Whether `c` is an ASCII decimal digit.
pub open spec fn is_digit(c: char) -> bool {
    '0' <= c && c <= '9'
}

/// Whether every character of `s` is a decimal digit.
pub open spec fn all_digits(s: Seq<char>) -> bool {
    forall|i: int| 0 <= i < s.len() ==> is_digit(#[trigger] s[i])
}

/// The number the decimal digits `s` write.
pub open spec fn digits_value(s: Seq<char>) -> int
    decreases s.len(),
{
    if s.len() == 0 {
        0
    } else {
        digits_value(s.drop_last()) * 10 + (s.last() as int - '0' as int)
    }
}

/// The value of `s` read as an `i32`, as `str::parse::<i32>` reads it: an
/// optional '+' or '-', then at least one decimal digit and nothing else,
/// and a value that fits; otherwise nothing.
pub open spec fn parse_i32_spec(s: Seq<char>) -> Option<i32> {
    if s.len() > 0 && (s[0] == '+' || s[0] == '-') {
        let d = s.drop_first();
        let v = if s[0] == '-' { -digits_value(d) } else { digits_value(d) };
        if d.len() > 0 && all_digits(d) && i32::MIN <= v <= i32::MAX {
            Some(v as i32)
        } else {
            None
        }
    } else if s.len() > 0 && all_digits(s) && digits_value(s) <= i32::MAX {
        Some(digits_value(s) as i32)
    } else {
        None
    }
}

/// Digits never write a negative number.
proof fn lemma_digits_nonneg(s: Seq<char>)
    requires
        all_digits(s),
    ensures
        digits_value(s) >= 0,
    decreases s.len(),
{
    if s.len() > 0 {
        assert(all_digits(s.drop_last()));
        lemma_digits_nonneg(s.drop_last());
    }
}

/// `s` read as an `i32`, as `s.parse::<i32>().ok()` reads it.
pub fn parse_i32(s: &str) -> (r: Option<i32>)
    ensures
        r == parse_i32_spec(s@),
{
    let cs = chars_of(s);
    let n = cs.len();
    if n == 0 {
        return None;
    }
    let mut start: usize = 0;
    let mut negative = false;
    if cs[0] == '+' {
        start = 1;
    } else if cs[0] == '-' {
        start = 1;
        negative = true;
    }
    if start == n {
        return None;
    }
    let ghost d = cs@.subrange(start as int, n as int);
    proof {
        if start == 1 {
            assert(d =~= s@.drop_first());
        } else {
            assert(d =~= s@);
        }
    }
    let mut acc: i64 = 0;
    let mut big = false;
    let mut i: usize = start;
    assert(cs@.subrange(start as int, start as int) =~= Seq::<char>::empty());
    while i < n
        invariant
            start <= i <= n,
            n == cs.len(),
            n > 0,
            start <= 1,
            start == 1 <==> (s@[0] == '+' || s@[0] == '-'),
            negative <==> s@[0] == '-',
            d == if start == 1 { s@.drop_first() } else { s@ },
            cs@ == s@,
            d == cs@.subrange(start as int, n as int),
            all_digits(cs@.subrange(start as int, i as int)),
            !big ==> acc == digits_value(cs@.subrange(start as int, i as int)),
            !big ==> 0 <= acc <= 2147483648,
            big ==> digits_value(cs@.subrange(start as int, i as int)) > 2147483648,
        decreases n - i,
    {
        let c = cs[i];
        let ghost pre = cs@.subrange(start as int, i as int);
        let ghost next = cs@.subrange(start as int, i + 1);
        assert(next.drop_last() =~= pre);
        assert(next.last() == c);
        if !('0' <= c && c <= '9') {
            assert(d[i - start] == c);
            assert(!is_digit(d[i - start]));
            return None;
        }
        proof {
            lemma_digits_nonneg(pre);
        }
        let digit = (c as u32 - '0' as u32) as i64;
        if !big {
            acc = acc * 10 + digit;
            if acc > 2147483648 {
                big = true;
            }
        }
        i = i + 1;
        assert(all_digits(cs@.subrange(start as int, i as int)));
    }
    assert(cs@.subrange(start as int, i as int) =~= d);
    if big {
        return None;
    }
    if negative {
        Some((0 - acc) as i32)
    } else if acc <= 2147483647 {
        Some(acc as i32)
    } else {
        None
    }
}

/// The major Java version a `java -version` report names: the text between
/// its first two '"' read up to the first '.', or the part after that '.'
/// when this reads 1 (the "1.8" scheme); 0 when any of this is missing or
/// not a number.
pub open spec fn java_major_spec(report: Seq<char>) -> i32 {
    let quoted = split_spec(report, '"');
    if quoted.len() < 2 {
        0
    } else {
        let parts = split_spec(quoted[1], '.');
        match parse_i32_spec(parts[0]) {
            None => 0,
            Some(num) => if num == 1 {
                if parts.len() < 2 {
                    0
                } else {
                    match parse_i32_spec(parts[1]) {
                        Some(minor) => minor,
                        None => 0,
                    }
                }
            } else {
                num
            },
        }
    }
}

/// The major Java version a `java -version` report names, as the launcher
/// reads it from e.g. `openjdk version "17.0.5"` (17) or `"1.8.0_392"` (8);
/// 0 when the report names none.
pub fn parse_java_major(report: &str) -> (major: i32)
    ensures
        major == java_major_spec(report@),
{
    let quoted = split_char(report, '"');
    if quoted.len() < 2 {
        return 0;
    }
    let parts = split_char(quoted[1].as_str(), '.');
    proof {
        lemma_split_nonempty(quoted@[1]@, '.');
    }
    match parse_i32(parts[0].as_str()) {
        None => 0,
        Some(num) => {
            if num == 1 {
                if parts.len() < 2 {
                    0
                } else {
                    match parse_i32(parts[1].as_str()) {
                        Some(minor) => minor,
                        None => 0,
                    }
                }
            } else {
                num
            }
        },
    }
}

/// Whether `t` occurs in `s`.
pub open spec fn has_infix(s: Seq<char>, t: Seq<char>) -> bool {
    exists|i: int| 0 <= i && i + t.len() <= s.len() && #[trigger] s.subrange(i, i + t.len()) == t
}

/// Whether `s` begins with `t`.
pub open spec fn has_prefix(s: Seq<char>, t: Seq<char>) -> bool {
    t.len() <= s.len() && s.take(t.len() as int) == t
}

/// Whether `s` ends with `t`.
pub open spec fn has_suffix(s: Seq<char>, t: Seq<char>) -> bool {
    t.len() <= s.len() && s.skip(s.len() - t.len()) == t
}

/// Whether the digits `d` write the number `v`, without a leading zero.
pub open spec fn writes_number(d: Seq<char>, v: int) -> bool {
    d.len() > 0 && all_digits(d) && d[0] != '0' && digits_value(d) == v
}

/// Whether `name` and `url` are a Temurin build of Java `version` for
/// `platform`: the URL lies under `temurin<v>-binaries` and names the
/// archive `OpenJDK<v>U`, the release name is `jdk<v>u...` or
/// `jdk-<v>....`, where `<v>` is the version in decimal; and the archive is
/// the system's own: a `_windows_` zip, a `_linux_` tar.gz or a `_mac_`
/// tar.gz.
pub open spec fn is_build_of(platform: Platform, version: int, name: Seq<char>, url: Seq<char>) -> bool {
    &&& exists|d: Seq<char>|
        #[trigger] writes_number(d, version) && has_infix(url, "temurin"@ + d + "-binaries"@) && has_infix(
            url,
            "OpenJDK"@ + d + "U"@,
        ) && (has_prefix(name, "jdk"@ + d + "u"@) || has_prefix(name, "jdk-"@ + d + "."@))
    &&& match platform {
        Platform::Windows => has_infix(url, "_windows_"@) && has_suffix(url, ".zip"@),
        Platform::Linux => has_infix(url, "_linux_"@) && has_suffix(url, ".tar.gz"@),
        Platform::MacOs => has_infix(url, "_mac_"@) && has_suffix(url, ".tar.gz"@),
    }
}

/// The build offered for a major version is a build of that very version,
/// for the system asked about; builds are offered for 8, 16, 17 and 21 only.
pub proof fn law_java_build_matches_version(platform: Platform, version: i64)
    ensures
        java_download_spec(platform, version) is Some <==> (version == 8 || version == 16 || version == 17 || version
            == 21),
        java_download_spec(platform, version) matches Some((name, url)) ==> is_build_of(platform, version as int, name, url),
{
    if version == 8 {
        lemma_java_build_8(platform);
    } else if version == 16 {
        lemma_java_build_16(platform);
    } else if version == 17 {
        lemma_java_build_17(platform);
    } else if version == 21 {
        lemma_java_build_21(platform);
    }
}

/// The build offered for Java 8 is a build of Java 8.
proof fn lemma_java_build_8(platform: Platform)
    ensures
        java_download_spec(platform, 8) matches Some((name, url)) && is_build_of(platform, 8, name, url),
{
    let d = seq!['8'];
    reveal_with_fuel(digits_value, 2);
    assert(writes_number(d, 8));
    reveal_strlit("temurin");
    reveal_strlit("-binaries");
    reveal_strlit("OpenJDK");
    reveal_strlit("U");
    reveal_strlit("jdk");
    reveal_strlit("u");
    reveal_strlit("jdk-");
    reveal_strlit(".");
    reveal_strlit("jdk8u472-b08");
    let name = "jdk8u472-b08"@;
    let pre = "jdk"@ + d + "u"@;
    assert(name.take(pre.len() as int) =~= pre);
    let tem = "temurin"@ + d + "-binaries"@;
    let jdk = "OpenJDK"@ + d + "U"@;
    match platform {
        Platform::Windows => {
            reveal_strlit("https://github.com/adoptium/temurin8-binaries/releases/download/jdk8u472-b08/OpenJDK8U-jdk_x64_windows_hotspot_8u472b08.zip");
            reveal_strlit("_windows_");
            reveal_strlit(".zip");
            let url = "https://github.com/adoptium/temurin8-binaries/releases/download/jdk8u472-b08/OpenJDK8U-jdk_x64_windows_hotspot_8u472b08.zip"@;
            assert(url.subrange(28, 28 + tem.len() as int) =~= tem);
            assert(url.subrange(77, 77 + jdk.len() as int) =~= jdk);
            assert(url.subrange(94, 94 + "_windows_"@.len() as int) =~= "_windows_"@);
            assert(url.skip(url.len() as int - ".zip"@.len() as int) =~= ".zip"@);
        },
        Platform::Linux => {
            reveal_strlit("https://github.com/adoptium/temurin8-binaries/releases/download/jdk8u472-b08/OpenJDK8U-jdk_x64_linux_hotspot_8u472b08.tar.gz");
            reveal_strlit("_linux_");
            reveal_strlit(".tar.gz");
            let url = "https://github.com/adoptium/temurin8-binaries/releases/download/jdk8u472-b08/OpenJDK8U-jdk_x64_linux_hotspot_8u472b08.tar.gz"@;
            assert(url.subrange(28, 28 + tem.len() as int) =~= tem);
            assert(url.subrange(77, 77 + jdk.len() as int) =~= jdk);
            assert(url.subrange(94, 94 + "_linux_"@.len() as int) =~= "_linux_"@);
            assert(url.skip(url.len() as int - ".tar.gz"@.len() as int) =~= ".tar.gz"@);
        },
        Platform::MacOs => {
            reveal_strlit("https://github.com/adoptium/temurin8-binaries/releases/download/jdk8u472-b08/OpenJDK8U-jdk_x64_mac_hotspot_8u472b08.tar.gz");
            reveal_strlit("_mac_");
            reveal_strlit(".tar.gz");
            let url = "https://github.com/adoptium/temurin8-binaries/releases/download/jdk8u472-b08/OpenJDK8U-jdk_x64_mac_hotspot_8u472b08.tar.gz"@;
            assert(url.subrange(28, 28 + tem.len() as int) =~= tem);
            assert(url.subrange(77, 77 + jdk.len() as int) =~= jdk);
            assert(url.subrange(94, 94 + "_mac_"@.len() as int) =~= "_mac_"@);
            assert(url.skip(url.len() as int - ".tar.gz"@.len() as int) =~= ".tar.gz"@);
        },
    }
}

/// The build offered for Java 16 is a build of Java 16.
proof fn lemma_java_build_16(platform: Platform)
    ensures
        java_download_spec(platform, 16) matches Some((name, url)) && is_build_of(platform, 16, name, url),
{
    let d = seq!['1', '6'];
    reveal_with_fuel(digits_value, 3);
    assert(writes_number(d, 16));
    reveal_strlit("temurin");
    reveal_strlit("-binaries");
    reveal_strlit("OpenJDK");
    reveal_strlit("U");
    reveal_strlit("jdk");
    reveal_strlit("u");
    reveal_strlit("jdk-");
    reveal_strlit(".");
    reveal_strlit("jdk-16.0.2+7");
    let name = "jdk-16.0.2+7"@;
    let pre = "jdk-"@ + d + "."@;
    assert(name.take(pre.len() as int) =~= pre);
    let tem = "temurin"@ + d + "-binaries"@;
    let jdk = "OpenJDK"@ + d + "U"@;
    match platform {
        Platform::Windows => {
            reveal_strlit("https://github.com/adoptium/temurin16-binaries/releases/download/jdk-16.0.2%2B7/OpenJDK16U-jdk_x64_windows_hotspot_16.0.2_7.zip");
            reveal_strlit("_windows_");
            reveal_strlit(".zip");
            let url = "https://github.com/adoptium/temurin16-binaries/releases/download/jdk-16.0.2%2B7/OpenJDK16U-jdk_x64_windows_hotspot_16.0.2_7.zip"@;
            assert(url.subrange(28, 28 + tem.len() as int) =~= tem);
            assert(url.subrange(80, 80 + jdk.len() as int) =~= jdk);
            assert(url.subrange(98, 98 + "_windows_"@.len() as int) =~= "_windows_"@);
            assert(url.skip(url.len() as int - ".zip"@.len() as int) =~= ".zip"@);
        },
        Platform::Linux => {
            reveal_strlit("https://github.com/adoptium/temurin16-binaries/releases/download/jdk-16.0.2%2B7/OpenJDK16U-jdk_x64_linux_hotspot_16.0.2_7.tar.gz");
            reveal_strlit("_linux_");
            reveal_strlit(".tar.gz");
            let url = "https://github.com/adoptium/temurin16-binaries/releases/download/jdk-16.0.2%2B7/OpenJDK16U-jdk_x64_linux_hotspot_16.0.2_7.tar.gz"@;
            assert(url.subrange(28, 28 + tem.len() as int) =~= tem);
            assert(url.subrange(80, 80 + jdk.len() as int) =~= jdk);
            assert(url.subrange(98, 98 + "_linux_"@.len() as int) =~= "_linux_"@);
            assert(url.skip(url.len() as int - ".tar.gz"@.len() as int) =~= ".tar.gz"@);
        },
        Platform::MacOs => {
            reveal_strlit("https://github.com/adoptium/temurin16-binaries/releases/download/jdk-16.0.2%2B7/OpenJDK16U-jdk_x64_mac_hotspot_16.0.2_7.tar.gz");
            reveal_strlit("_mac_");
            reveal_strlit(".tar.gz");
            let url = "https://github.com/adoptium/temurin16-binaries/releases/download/jdk-16.0.2%2B7/OpenJDK16U-jdk_x64_mac_hotspot_16.0.2_7.tar.gz"@;
            assert(url.subrange(28, 28 + tem.len() as int) =~= tem);
            assert(url.subrange(80, 80 + jdk.len() as int) =~= jdk);
            assert(url.subrange(98, 98 + "_mac_"@.len() as int) =~= "_mac_"@);
            assert(url.skip(url.len() as int - ".tar.gz"@.len() as int) =~= ".tar.gz"@);
        },
    }
}

/// The build offered for Java 17 is a build of Java 17.
proof fn lemma_java_build_17(platform: Platform)
    ensures
        java_download_spec(platform, 17) matches Some((name, url)) && is_build_of(platform, 17, name, url),
{
    let d = seq!['1', '7'];
    reveal_with_fuel(digits_value, 3);
    assert(writes_number(d, 17));
    reveal_strlit("temurin");
    reveal_strlit("-binaries");
    reveal_strlit("OpenJDK");
    reveal_strlit("U");
    reveal_strlit("jdk");
    reveal_strlit("u");
    reveal_strlit("jdk-");
    reveal_strlit(".");
    reveal_strlit("jdk-17.0.5+8");
    let name = "jdk-17.0.5+8"@;
    let pre = "jdk-"@ + d + "."@;
    assert(name.take(pre.len() as int) =~= pre);
    let tem = "temurin"@ + d + "-binaries"@;
    let jdk = "OpenJDK"@ + d + "U"@;
    match platform {
        Platform::Windows => {
            reveal_strlit("https://github.com/adoptium/temurin17-binaries/releases/download/jdk-17.0.5%2B8/OpenJDK17U-jdk_x64_windows_hotspot_17.0.5_8.zip");
            reveal_strlit("_windows_");
            reveal_strlit(".zip");
            let url = "https://github.com/adoptium/temurin17-binaries/releases/download/jdk-17.0.5%2B8/OpenJDK17U-jdk_x64_windows_hotspot_17.0.5_8.zip"@;
            assert(url.subrange(28, 28 + tem.len() as int) =~= tem);
            assert(url.subrange(80, 80 + jdk.len() as int) =~= jdk);
            assert(url.subrange(98, 98 + "_windows_"@.len() as int) =~= "_windows_"@);
            assert(url.skip(url.len() as int - ".zip"@.len() as int) =~= ".zip"@);
        },
        Platform::Linux => {
            reveal_strlit("https://github.com/adoptium/temurin17-binaries/releases/download/jdk-17.0.5%2B8/OpenJDK17U-jdk_x64_linux_hotspot_17.0.5_8.tar.gz");
            reveal_strlit("_linux_");
            reveal_strlit(".tar.gz");
            let url = "https://github.com/adoptium/temurin17-binaries/releases/download/jdk-17.0.5%2B8/OpenJDK17U-jdk_x64_linux_hotspot_17.0.5_8.tar.gz"@;
            assert(url.subrange(28, 28 + tem.len() as int) =~= tem);
            assert(url.subrange(80, 80 + jdk.len() as int) =~= jdk);
            assert(url.subrange(98, 98 + "_linux_"@.len() as int) =~= "_linux_"@);
            assert(url.skip(url.len() as int - ".tar.gz"@.len() as int) =~= ".tar.gz"@);
        },
        Platform::MacOs => {
            reveal_strlit("https://github.com/adoptium/temurin17-binaries/releases/download/jdk-17.0.5%2B8/OpenJDK17U-jdk_x64_mac_hotspot_17.0.5_8.tar.gz");
            reveal_strlit("_mac_");
            reveal_strlit(".tar.gz");
            let url = "https://github.com/adoptium/temurin17-binaries/releases/download/jdk-17.0.5%2B8/OpenJDK17U-jdk_x64_mac_hotspot_17.0.5_8.tar.gz"@;
            assert(url.subrange(28, 28 + tem.len() as int) =~= tem);
            assert(url.subrange(80, 80 + jdk.len() as int) =~= jdk);
            assert(url.subrange(98, 98 + "_mac_"@.len() as int) =~= "_mac_"@);
            assert(url.skip(url.len() as int - ".tar.gz"@.len() as int) =~= ".tar.gz"@);
        },
    }
}

/// The build offered for Java 21 is a build of Java 21.
proof fn lemma_java_build_21(platform: Platform)
    ensures
        java_download_spec(platform, 21) matches Some((name, url)) && is_build_of(platform, 21, name, url),
{
    let d = seq!['2', '1'];
    reveal_with_fuel(digits_value, 3);
    assert(writes_number(d, 21));
    reveal_strlit("temurin");
    reveal_strlit("-binaries");
    reveal_strlit("OpenJDK");
    reveal_strlit("U");
    reveal_strlit("jdk");
    reveal_strlit("u");
    reveal_strlit("jdk-");
    reveal_strlit(".");
    reveal_strlit("jdk-21.0.8+9");
    let name = "jdk-21.0.8+9"@;
    let pre = "jdk-"@ + d + "."@;
    assert(name.take(pre.len() as int) =~= pre);
    let tem = "temurin"@ + d + "-binaries"@;
    let jdk = "OpenJDK"@ + d + "U"@;
    match platform {
        Platform::Windows => {
            reveal_strlit("https://github.com/adoptium/temurin21-binaries/releases/download/jdk-21.0.8%2B9/OpenJDK21U-jdk_x64_windows_hotspot_21.0.8_9.zip");
            reveal_strlit("_windows_");
            reveal_strlit(".zip");
            let url = "https://github.com/adoptium/temurin21-binaries/releases/download/jdk-21.0.8%2B9/OpenJDK21U-jdk_x64_windows_hotspot_21.0.8_9.zip"@;
            assert(url.subrange(28, 28 + tem.len() as int) =~= tem);
            assert(url.subrange(80, 80 + jdk.len() as int) =~= jdk);
            assert(url.subrange(98, 98 + "_windows_"@.len() as int) =~= "_windows_"@);
            assert(url.skip(url.len() as int - ".zip"@.len() as int) =~= ".zip"@);
        },
        Platform::Linux => {
            reveal_strlit("https://github.com/adoptium/temurin21-binaries/releases/download/jdk-21.0.8%2B9/OpenJDK21U-jdk_x64_linux_hotspot_21.0.8_9.tar.gz");
            reveal_strlit("_linux_");
            reveal_strlit(".tar.gz");
            let url = "https://github.com/adoptium/temurin21-binaries/releases/download/jdk-21.0.8%2B9/OpenJDK21U-jdk_x64_linux_hotspot_21.0.8_9.tar.gz"@;
            assert(url.subrange(28, 28 + tem.len() as int) =~= tem);
            assert(url.subrange(80, 80 + jdk.len() as int) =~= jdk);
            assert(url.subrange(98, 98 + "_linux_"@.len() as int) =~= "_linux_"@);
            assert(url.skip(url.len() as int - ".tar.gz"@.len() as int) =~= ".tar.gz"@);
        },
        Platform::MacOs => {
            reveal_strlit("https://github.com/adoptium/temurin21-binaries/releases/download/jdk-21.0.8%2B9/OpenJDK21U-jdk_x64_mac_hotspot_21.0.8_9.tar.gz");
            reveal_strlit("_mac_");
            reveal_strlit(".tar.gz");
            let url = "https://github.com/adoptium/temurin21-binaries/releases/download/jdk-21.0.8%2B9/OpenJDK21U-jdk_x64_mac_hotspot_21.0.8_9.tar.gz"@;
            assert(url.subrange(28, 28 + tem.len() as int) =~= tem);
            assert(url.subrange(80, 80 + jdk.len() as int) =~= jdk);
            assert(url.subrange(98, 98 + "_mac_"@.len() as int) =~= "_mac_"@);
            assert(url.skip(url.len() as int - ".tar.gz"@.len() as int) =~= ".tar.gz"@);
        },
    }
}

/// The portable Java launcher lives at `runtime/bin/java` under the game
/// folder (`java.exe` on Windows): below a folder written without a
/// trailing '/', that is the folder's text followed by
/// "/runtime/bin/java(.exe)".
pub proof fn law_java_lives_under_runtime_bin(base: Seq<char>, platform: Platform)
    requires
        base.len() > 0,
        base.last() != '/',
    ensures
        runtime_java_spec(base, platform) == base + match platform {
            Platform::Windows => "/runtime/bin/java.exe"@,
            _ => "/runtime/bin/java"@,
        },
{
    reveal_strlit("/runtime/bin/java.exe");
    reveal_strlit("/runtime/bin/java");
    let rt = base + seq!['/'] + seq!['r', 'u', 'n', 't', 'i', 'm', 'e'];
    assert(runtime_dir_spec(base) == rt);
    let bin = rt + seq!['/'] + seq!['b', 'i', 'n'];
    assert(rt.last() == 'e');
    assert(runtime_dir_spec(base).last() != '/');
    assert(path_join(runtime_dir_spec(base), seq!['b', 'i', 'n']) == bin);
    assert(bin.last() == 'n');
    match platform {
        Platform::Windows => {
            assert(bin + seq!['/'] + seq!['j', 'a', 'v', 'a', '.', 'e', 'x', 'e'] =~= base + "/runtime/bin/java.exe"@);
        },
        _ => {
            assert(bin + seq!['/'] + seq!['j', 'a', 'v', 'a'] =~= base + "/runtime/bin/java"@);
        },
    }
}

} // verus!
