use cppmm_build::link_arg::{Dependency, DylibPathInfo, LinkArg};
use cppmm_build::matcher::{classify_with_captures, match_token, Platform};
use cppmm_build::nmake::get_linking_from_nmake;
use cppmm_build::select::{get_linking_from_cmake, BuildArtifacts, LinkError};
use cppmm_build::text::{contains_text, split_tokens_exec, Separator};
use cppmm_build::unix::parse_link_txt;
use cppmm_build::windows::{deps_from_events, get_linking_from_vsproj, XmlEvent};

fn path(p: &str, basename: &str, libname: &str) -> LinkArg {
    LinkArg::Path(DylibPathInfo {
        path: p.to_string(),
        basename: basename.to_string(),
        libname: libname.to_string(),
    })
}

fn basename_of(arg: Option<LinkArg>) -> Option<String> {
    match arg {
        Some(LinkArg::Path(d)) => Some(d.basename),
        _ => None,
    }
}

fn unix_artifacts(text: Option<&str>) -> BuildArtifacts {
    BuildArtifacts { link_txt: text.map(|t| t.to_string()), vsproj: None, build_make: None }
}

fn windows_artifacts(vsproj: Option<&str>, build_make: Option<&str>) -> BuildArtifacts {
    BuildArtifacts {
        link_txt: None,
        vsproj: vsproj.map(|t| t.to_string()),
        build_make: build_make.map(|t| t.to_string()),
    }
}

const TWO_CONFIGS: &str = r#"<?xml version="1.0" encoding="utf-8"?>
<Project>
  <ItemDefinitionGroup Condition="'$(Configuration)|$(Platform)'=='Debug|x64'">
    <Link>
      <AdditionalDependencies>C:\deps\lib\zlibd.lib;C:\deps\lib\Imath-3_1_d.lib;kernel32.lib;%(AdditionalDependencies)</AdditionalDependencies>
    </Link>
  </ItemDefinitionGroup>
  <ItemDefinitionGroup Condition="'$(Configuration)|$(Platform)'=='Release|x64'">
    <Link>
      <AdditionalDependencies>C:\deps\lib\zlib.lib;C:\deps\lib\Imath-3_1.lib</AdditionalDependencies>
    </Link>
  </ItemDefinitionGroup>
</Project>
"#;

const BUILD_MAKE: &str = "foo.dll: objs\n\tlink.exe /nologo @<<\n /out:foo.dll /dll /version:1.0 C:\\deps\\zlib.lib -lextra -LC:\\deps user32.lib\n<<\n\tother.exe C:\\x\\late.lib\n";

#[test]
fn it_works() {
    assert_eq!(2 + 2, 4);
}

#[test]
fn link_lib_flag_on_every_platform() {
    for p in [Platform::Unix, Platform::Windows] {
        assert_eq!(match_token("-lfoo", p), Some(LinkArg::LinkLib("foo".to_string())));
        assert_eq!(match_token("-llibbar.so", p), Some(LinkArg::LinkLib("libbar.so".to_string())));
        assert_eq!(match_token("-lbaz.lib", p), Some(LinkArg::LinkLib("baz.lib".to_string())));
    }
}

#[test]
fn link_dir_flag_on_every_platform() {
    for p in [Platform::Unix, Platform::Windows] {
        assert_eq!(match_token("-L/opt/x/lib", p), Some(LinkArg::LinkDir("/opt/x/lib".to_string())));
        assert_eq!(match_token("-L/y/libq.so", p), Some(LinkArg::LinkDir("/y/libq.so".to_string())));
    }
}

#[test]
fn unix_suffix_variants() {
    for suffix in [".so", ".dylib", ".so.1", ".so.1.2", ".so.1.2.3"] {
        let p = format!("/opt/lib/libname{}", suffix);
        assert_eq!(basename_of(match_token(&p, Platform::Unix)), Some("name".to_string()), "{}", p);
        let bare = format!("libname{}", suffix);
        assert_eq!(basename_of(match_token(&bare, Platform::Unix)), Some("name".to_string()), "{}", bare);
    }
}

#[test]
fn unix_four_version_components_do_not_match() {
    assert_eq!(match_token("/opt/lib/libname.so.1.2.3.4", Platform::Unix), None);
}

#[test]
fn unix_non_libraries_are_ignored() {
    assert_eq!(match_token("-Wall", Platform::Unix), None);
    assert_eq!(match_token("a.o", Platform::Unix), None);
    assert_eq!(match_token("/x/libfoo.a", Platform::Unix), None);
    assert_eq!(match_token("/x/foo.so", Platform::Unix), None);
}

#[test]
fn unix_versioned_full_path() {
    assert_eq!(
        match_token("/usr/local/lib/libfoo.so.2.1.0", Platform::Unix),
        Some(path("/usr/local/lib/libfoo.so.2.1.0", "foo", "libfoo.so.2.1.0"))
    );
}

#[test]
fn unix_library_under_lib_named_directory() {
    assert_eq!(
        match_token("/home/libs/libmylib.so", Platform::Unix),
        Some(path("/home/libs/libmylib.so", "mylib", "libmylib.so"))
    );
}

#[test]
fn windows_paths_with_and_without_directory() {
    assert_eq!(
        match_token("C:\\libs\\bar.lib", Platform::Windows),
        Some(path("C:\\libs\\bar.lib", "bar", "bar.lib"))
    );
    assert_eq!(match_token("bar.lib", Platform::Windows), Some(path("bar.lib", "bar", "bar.lib")));
    assert_eq!(match_token("C:\\libs\\bar.dll", Platform::Windows), None);
}

#[test]
fn classify_given_captures() {
    assert_eq!(
        classify_with_captures("/p/libq.so", Some(("libq.so".to_string(), "q".to_string()))),
        Some(path("/p/libq.so", "q", "libq.so"))
    );
    assert_eq!(classify_with_captures("/p/libq.so", None), None);
    assert_eq!(
        classify_with_captures("-lq", Some(("x".to_string(), "y".to_string()))),
        Some(LinkArg::LinkLib("q".to_string()))
    );
}

#[test]
fn unix_link_line() {
    assert_eq!(
        parse_link_txt("cc -o out.exe a.o -L/x -lfoo /y/libbar.so -Wall"),
        vec![
            LinkArg::LinkDir("/x".to_string()),
            LinkArg::LinkLib("foo".to_string()),
            path("/y/libbar.so", "bar", "libbar.so"),
        ]
    );
}

#[test]
fn unix_link_line_without_output_flag_is_empty() {
    assert_eq!(parse_link_txt("cc a.o -L/x -lfoo"), vec![]);
    assert_eq!(parse_link_txt(""), vec![]);
    assert_eq!(parse_link_txt("cc -o"), vec![]);
}

#[test]
fn unix_link_line_with_newlines_and_tabs() {
    assert_eq!(
        parse_link_txt("/usr/bin/c++  -fPIC\t-o libw.so  -lm\n"),
        vec![LinkArg::LinkLib("m".to_string())]
    );
}

#[test]
fn project_file_release_only() {
    let r = get_linking_from_vsproj(TWO_CONFIGS, "Release").unwrap().unwrap();
    assert_eq!(
        r,
        vec![
            path("C:\\deps\\lib\\zlib.lib", "zlib", "zlib.lib"),
            path("C:\\deps\\lib\\Imath-3_1.lib", "Imath-3_1", "Imath-3_1.lib"),
        ]
    );
    let d = get_linking_from_vsproj(TWO_CONFIGS, "Debug").unwrap().unwrap();
    assert_eq!(d.len(), 3);
    assert_eq!(d[2], path("kernel32.lib", "kernel32", "kernel32.lib"));
}

#[test]
fn project_file_without_configuration() {
    assert_eq!(get_linking_from_vsproj(TWO_CONFIGS, "RelWithDebInfo").unwrap(), None);
}

#[test]
fn project_file_malformed() {
    assert!(matches!(
        get_linking_from_vsproj("<Project><ItemDefinitionGroup></Link></Project>", "Release"),
        Err(LinkError::MalformedProject)
    ));
}

#[test]
fn events_to_dependencies() {
    let events = vec![
        XmlEvent::Start {
            name: "ItemDefinitionGroup".to_string(),
            attributes: " Condition=\"x|Release\"".to_string(),
        },
        XmlEvent::Start { name: "Link".to_string(), attributes: String::new() },
        XmlEvent::Start { name: "AdditionalDependencies".to_string(), attributes: String::new() },
        XmlEvent::Text { text: "a.lib;;b.txt;d\\c.lib".to_string() },
    ];
    assert_eq!(
        deps_from_events(&events, "Release"),
        Some(vec![path("a.lib", "a", "a.lib"), path("d\\c.lib", "c", "c.lib")])
    );
    assert_eq!(deps_from_events(&events, "Debug"), None);
}

#[test]
fn makefile_fragment() {
    assert_eq!(
        get_linking_from_nmake(BUILD_MAKE),
        Some(vec![
            path("C:\\deps\\zlib.lib", "zlib", "zlib.lib"),
            LinkArg::LinkLib("extra".to_string()),
            LinkArg::LinkDir("C:\\deps".to_string()),
            path("user32.lib", "user32", "user32.lib"),
        ])
    );
    assert_eq!(get_linking_from_nmake("link.exe a.lib b.lib"), None);
}

#[test]
fn selector_falls_back_to_makefile() {
    let a = windows_artifacts(Some(TWO_CONFIGS), Some(BUILD_MAKE));
    assert_eq!(get_linking_from_cmake(Platform::Windows, &a, "MinSizeRel").unwrap().len(), 4);
    assert_eq!(get_linking_from_cmake(Platform::Windows, &a, "Release").unwrap().len(), 2);
    let b = windows_artifacts(None, Some(BUILD_MAKE));
    assert_eq!(get_linking_from_cmake(Platform::Windows, &b, "Release").unwrap().len(), 4);
}

#[test]
fn selector_fails_without_any_backend() {
    let a = windows_artifacts(Some(TWO_CONFIGS), Some("link.exe a.lib"));
    assert!(matches!(get_linking_from_cmake(Platform::Windows, &a, "Other"), Err(LinkError::NoProjectOrMakefile)));
    let b = windows_artifacts(None, None);
    assert!(matches!(get_linking_from_cmake(Platform::Windows, &b, "Release"), Err(LinkError::NoProjectOrMakefile)));
    let c = unix_artifacts(None);
    assert!(matches!(get_linking_from_cmake(Platform::Unix, &c, "Release"), Err(LinkError::MissingLinkTxt)));
}

#[test]
fn selector_malformed_project_is_fatal() {
    let a = windows_artifacts(Some("<a><b></a>"), Some(BUILD_MAKE));
    assert!(matches!(get_linking_from_cmake(Platform::Windows, &a, "Release"), Err(LinkError::MalformedProject)));
}

#[test]
fn selector_unix_uses_transcript() {
    let a = unix_artifacts(Some("cc -o out.exe a.o -L/x -lfoo /y/libbar.so -Wall"));
    assert_eq!(get_linking_from_cmake(Platform::Unix, &a, "Release").unwrap(), parse_link_txt("cc -o out.exe a.o -L/x -lfoo /y/libbar.so -Wall"));
}

#[test]
fn extraction_is_repeatable() {
    let a = unix_artifacts(Some("c++ -o libz.so /l/libone.so -ltwo -L/three /l/libfour.so.4"));
    let first = get_linking_from_cmake(Platform::Unix, &a, "Release").unwrap();
    let second = get_linking_from_cmake(Platform::Unix, &a, "Release").unwrap();
    assert_eq!(first, second);
    assert_eq!(first.len(), 4);
    let w = windows_artifacts(Some(TWO_CONFIGS), None);
    assert_eq!(
        get_linking_from_cmake(Platform::Windows, &w, "Debug").unwrap(),
        get_linking_from_cmake(Platform::Windows, &w, "Debug").unwrap()
    );
}

#[test]
fn tokens_and_substrings() {
    assert_eq!(split_tokens_exec("  a b\t\nc  ", Separator::Whitespace), vec!["a", "b", "c"]);
    assert_eq!(split_tokens_exec(";x;;y;", Separator::Semicolon), vec!["x", "y"]);
    assert!(contains_text("'Release|x64'", "Release"));
    assert!(!contains_text("'Debug|x64'", "Release"));
    assert!(contains_text("abc", ""));
}

#[test]
fn error_messages_and_dependency_names() {
    assert_eq!(LinkError::NoProjectOrMakefile.message(), "Could not open either vsproj or nmake build");
    let d = Dependency { name: "zlib", definitions: vec![("ZLIB_BUILD", "ON")] };
    assert_eq!(d.debug_name(), "zlib");
}
