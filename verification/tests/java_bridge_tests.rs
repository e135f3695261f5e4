use hprof_slurp::dtfj_search::{
    dtfj_not_found, dtfj_search_roots, extraction_failure, needs_refresh, nested_jar_file_name,
    DtfjSearch, ExtractStep, FileStamp,
};
use hprof_slurp::errors::HprofSlurpError;
use hprof_slurp::java_bridge::{
    analyze_with_java_helper, check_compile, compile_setup_failure, helper_stdout,
    is_dtfj_impl_jar, is_dtfj_interface_jar, java_arguments, javac_arguments, join_classpath,
    render_helper_response, resolve_impl_candidate, resolve_interface_candidate, CompileStep,
    DtfjClasspath, HelperClassStats, HelperResponse, JarPlan, ProcessRun,
};
use hprof_slurp::rendered_result::ClassAllocationStats;

fn helper_error(message: &str) -> HprofSlurpError {
    HprofSlurpError::JavaHelperError { message: message.to_string() }
}

fn sample_response() -> HelperResponse {
    HelperResponse {
        memory_usage: vec![
            HelperClassStats {
                class_name: "org.example.Main$TestClass".to_string(),
                instance_count: 10_000,
                largest_allocation_bytes: 24,
                allocation_size_bytes: 240_000,
            },
            HelperClassStats {
                class_name: "java.lang.String".to_string(),
                instance_count: 3,
                largest_allocation_bytes: 40,
                allocation_size_bytes: 96,
            },
        ],
        total_objects: 10_003,
        class_count: 2,
        thread_count: 7,
        string_count: 3,
        total_heap_bytes: 240_096,
        format: "PHD".to_string(),
    }
}

#[test]
fn dtfj_impl_detector_handles_modern_mat_jars() {
    assert!(is_dtfj_impl_jar("dtfj.jar"));
    assert!(is_dtfj_impl_jar("com.ibm.dtfj.j9_1.1.2.202508181917.jar"));
    assert!(is_dtfj_impl_jar("com.ibm.dtfj.vm_1.0.0.jar"));
    assert!(is_dtfj_impl_jar("foo_dtfj_impl_123.jar"));
    assert!(!is_dtfj_impl_jar("some-other.jar"));
    assert!(!is_dtfj_impl_jar("dtfj.txt"));
}

#[test]
fn dtfj_interface_detector_handles_modern_mat_jars() {
    assert!(is_dtfj_interface_jar("dtfj-interface.jar"));
    assert!(is_dtfj_interface_jar(
        "com.ibm.dtfj.api_1.1.2.202508181917.jar"
    ));
    assert!(is_dtfj_interface_jar("foo_dtfj_interface_123.jar"));
    assert!(!is_dtfj_interface_jar(
        "com.ibm.dtfj.j9_1.1.2.202508181917.jar"
    ));
    assert!(!is_dtfj_interface_jar("dtfj-interface.txt"));
}

#[test]
fn detectors_look_at_the_lower_case_name() {
    assert!(is_dtfj_impl_jar("COM.IBM.DTFJ.J9_1.jar"));
    assert!(is_dtfj_impl_jar("Foo_DTFJ_IMPL.jar"));
    assert!(!is_dtfj_impl_jar("COM.IBM.DTFJ.J9_1.JAR"));
    assert!(!is_dtfj_impl_jar("DTFJ.jar"));
    assert!(is_dtfj_interface_jar("Com.Ibm.Dtfj.Api.jar"));
    assert!(!is_dtfj_interface_jar(""));
}

#[test]
fn impl_candidates_are_resolved() {
    assert_eq!(resolve_impl_candidate("/p/some-other.jar", "some-other.jar"), None);
    assert_eq!(
        resolve_impl_candidate("/p/dtfj.jar", "dtfj.jar"),
        Some(JarPlan::Direct { jar: "/p/dtfj.jar".to_string() })
    );
    assert_eq!(
        resolve_impl_candidate("/p/foo_dtfj_impl_1.jar", "foo_dtfj_impl_1.jar"),
        Some(JarPlan::Direct { jar: "/p/foo_dtfj_impl_1.jar".to_string() })
    );
    assert_eq!(
        resolve_impl_candidate("/p/com.ibm.dtfj.j9_1.jar", "com.ibm.dtfj.j9_1.jar"),
        Some(JarPlan::Nested {
            container: "/p/com.ibm.dtfj.j9_1.jar".to_string(),
            jar_entry: "lib/dtfj.jar".to_string(),
            extra_entries: vec!["lib/j9ddr.jar".to_string()],
        })
    );
    assert_eq!(
        resolve_impl_candidate("/p/Com.Ibm.Dtfj.Vm_1.jar", "Com.Ibm.Dtfj.Vm_1.jar"),
        Some(JarPlan::Nested {
            container: "/p/Com.Ibm.Dtfj.Vm_1.jar".to_string(),
            jar_entry: "lib/dtfj.jar".to_string(),
            extra_entries: vec!["lib/j9ddr.jar".to_string()],
        })
    );
    assert_eq!(resolve_impl_candidate("/p/X_DTFJ_IMPL.jar", "X_DTFJ_IMPL.jar"), None);
}

#[test]
fn interface_candidates_are_resolved() {
    assert_eq!(resolve_interface_candidate("/p/dtfj.jar", "dtfj.jar"), None);
    assert_eq!(
        resolve_interface_candidate("/p/dtfj-interface.jar", "dtfj-interface.jar"),
        Some(JarPlan::Direct { jar: "/p/dtfj-interface.jar".to_string() })
    );
    assert_eq!(
        resolve_interface_candidate("/p/a_dtfj_interface.jar", "a_dtfj_interface.jar"),
        Some(JarPlan::Direct { jar: "/p/a_dtfj_interface.jar".to_string() })
    );
    assert_eq!(
        resolve_interface_candidate("/p/com.ibm.dtfj.api_1.jar", "com.ibm.dtfj.api_1.jar"),
        Some(JarPlan::Nested {
            container: "/p/com.ibm.dtfj.api_1.jar".to_string(),
            jar_entry: "lib/dtfj-interface.jar".to_string(),
            extra_entries: vec![],
        })
    );
    assert_eq!(resolve_interface_candidate("/p/A_DTFJ_INTERFACE.jar", "A_DTFJ_INTERFACE.jar"), None);
}

#[test]
fn classpath_lists_impl_interface_then_extras() {
    let classpath = DtfjClasspath {
        impl_jar: "/a/dtfj.jar".to_string(),
        interface_jar: "/b/dtfj-interface.jar".to_string(),
        extra_jars: vec!["/c/j9ddr.jar".to_string(), "/d/more.jar".to_string()],
    };
    assert_eq!(
        classpath.all(),
        vec!["/a/dtfj.jar", "/b/dtfj-interface.jar", "/c/j9ddr.jar", "/d/more.jar"]
    );
    let bare = DtfjClasspath {
        impl_jar: "i".to_string(),
        interface_jar: "f".to_string(),
        extra_jars: vec![],
    };
    assert_eq!(bare.all(), vec!["i", "f"]);
}

#[test]
fn classpath_is_joined_with_the_separator() {
    assert_eq!(join_classpath(&[], ':'), "");
    assert_eq!(join_classpath(&["/a"], ':'), "/a");
    assert_eq!(join_classpath(&["/a", "/b", "/c"], ':'), "/a:/b:/c");
    assert_eq!(join_classpath(&["C:\\a", "D:\\b"], ';'), "C:\\a;D:\\b");
    assert_eq!(join_classpath(&["", ""], ':'), ":");
}

#[test]
fn search_roots_are_ordered() {
    let roots = dtfj_search_roots(Some("/env/dtfj".to_string()), Some("/env/mat".to_string()));
    assert_eq!(
        roots,
        vec![
            "/env/dtfj",
            "/env/mat",
            "/opt/mat",
            "/usr/lib/mat",
            "/Applications/MemoryAnalyzer.app/Contents/Eclipse"
        ]
    );
    assert_eq!(dtfj_search_roots(None, None).len(), 3);
    assert_eq!(dtfj_search_roots(None, Some("/m".to_string()))[0], "/m");
    assert_eq!(
        dtfj_not_found(),
        helper_error("Unable to locate dtfj.jar and dtfj-interface.jar. Set HPROF_SLURP_DTFJ_DIR to the directory containing these jars.")
    );
}

#[test]
fn search_walks_depth_first_to_the_limit() {
    let mut search = DtfjSearch::new("/root".to_string());
    assert_eq!(search.next_dir(), Some("/root".to_string()));
    search.push_subdir("/root/a".to_string());
    search.push_subdir("/root/b".to_string());
    assert_eq!(search.next_dir(), Some("/root/b".to_string()));
    assert_eq!(search.next_dir(), Some("/root/a".to_string()));
    let mut path = "/root/a".to_string();
    for level in 2..=6 {
        path.push_str("/x");
        search.push_subdir(path.clone());
        assert_eq!(search.next_dir(), Some(path.clone()), "level {}", level);
    }
    path.push_str("/x");
    search.push_subdir(path.clone());
    assert_eq!(search.next_dir(), None);
    assert_eq!(search.next_dir(), None);
}

#[test]
fn search_skips_what_is_too_deep_and_goes_on() {
    let mut search = DtfjSearch::new("/r".to_string());
    assert_eq!(search.next_dir(), Some("/r".to_string()));
    search.push_subdir("/r/keep".to_string());
    let mut path = "/r/deep".to_string();
    search.push_subdir(path.clone());
    for _ in 0..6 {
        assert_eq!(search.next_dir(), Some(path.clone()));
        path.push_str("/d");
        search.push_subdir(path.clone());
    }
    assert_eq!(search.next_dir(), Some("/r/keep".to_string()));
    assert_eq!(search.next_dir(), None);
}

#[test]
fn search_keeps_the_first_find_of_each_jar() {
    let mut search = DtfjSearch::new("/r".to_string());
    assert!(!search.is_complete());
    let plan = search.plan_file("/r/dtfj.jar", "dtfj.jar");
    assert_eq!(plan.for_impl, Some(JarPlan::Direct { jar: "/r/dtfj.jar".to_string() }));
    assert_eq!(plan.for_interface, None);
    search.found_impl("/r/dtfj.jar".to_string(), vec!["/r/j9ddr.jar".to_string()]);
    assert!(!search.is_complete());

    let again = search.plan_file("/r/sub/dtfj.jar", "dtfj.jar");
    assert_eq!(again.for_impl, None);
    search.found_impl("/r/sub/dtfj.jar".to_string(), vec!["/r/sub/x.jar".to_string()]);

    let plan = search.plan_file("/r/dtfj-interface.jar", "dtfj-interface.jar");
    assert_eq!(plan.for_impl, None);
    assert_eq!(
        plan.for_interface,
        Some(JarPlan::Direct { jar: "/r/dtfj-interface.jar".to_string() })
    );
    search.found_interface("/r/dtfj-interface.jar".to_string(), vec![]);
    assert!(search.is_complete());
    assert_eq!(
        search.into_classpath(),
        Some(DtfjClasspath {
            impl_jar: "/r/dtfj.jar".to_string(),
            interface_jar: "/r/dtfj-interface.jar".to_string(),
            extra_jars: vec!["/r/j9ddr.jar".to_string()],
        })
    );
}

#[test]
fn one_file_can_give_both_jars() {
    let search = DtfjSearch::new("/r".to_string());
    let plan = search.plan_file("/r/dtfj_impl_dtfj_interface.jar", "dtfj_impl_dtfj_interface.jar");
    assert!(matches!(plan.for_impl, Some(JarPlan::Direct { .. })));
    assert!(matches!(plan.for_interface, Some(JarPlan::Direct { .. })));
    assert_eq!(search.into_classpath(), None);
}

#[test]
fn refresh_is_needed_when_source_is_newer_or_unknown() {
    let at = |t: i128| Some(FileStamp { modified: Some(t) });
    assert!(needs_refresh(None, at(5)));
    assert!(needs_refresh(at(5), None));
    assert!(needs_refresh(None, None));
    assert!(needs_refresh(at(5), at(6)));
    assert!(!needs_refresh(at(5), at(5)));
    assert!(!needs_refresh(at(6), at(5)));
    assert!(!needs_refresh(Some(FileStamp { modified: None }), Some(FileStamp { modified: None })));
    assert!(needs_refresh(Some(FileStamp { modified: None }), at(1)));
    assert!(!needs_refresh(at(1), Some(FileStamp { modified: None })));
    assert!(needs_refresh(at(-1), Some(FileStamp { modified: None })));
}

#[test]
fn nested_jar_names() {
    assert_eq!(
        nested_jar_file_name(Some("com.ibm.dtfj.j9_1.jar"), "lib/dtfj.jar"),
        "com.ibm.dtfj.j9_1.jar_lib_dtfj.jar"
    );
    assert_eq!(nested_jar_file_name(None, "lib/a/b.jar"), "container_lib_a_b.jar");
}

#[test]
fn extraction_failures_name_step_and_reason() {
    let fail = |step| extraction_failure(step, "lib/dtfj.jar", "/m/bundle.jar", "/t/out.jar", "denied");
    assert_eq!(
        extraction_failure(ExtractStep::CreateCache, "lib/dtfj.jar", "/m/bundle.jar", "/t", "denied"),
        helper_error("Unable to create extracted jar cache at /t: denied")
    );
    assert_eq!(
        fail(ExtractStep::OpenBundle),
        helper_error("Failed to open DTFJ bundle /m/bundle.jar: denied")
    );
    assert_eq!(
        fail(ExtractStep::ReadBundle),
        helper_error("Failed to read DTFJ bundle /m/bundle.jar as zip: denied")
    );
    assert_eq!(
        fail(ExtractStep::LocateEntry),
        helper_error("Failed to locate lib/dtfj.jar inside /m/bundle.jar: denied")
    );
    assert_eq!(
        fail(ExtractStep::WriteJar),
        helper_error("Failed to write extracted jar /t/out.jar: denied")
    );
    assert_eq!(
        fail(ExtractStep::CopyEntry),
        helper_error("Failed to copy lib/dtfj.jar to /t/out.jar: denied")
    );
}

#[test]
fn compile_steps() {
    assert_eq!(
        compile_setup_failure(CompileStep::CreateTargetDir, "read-only"),
        helper_error("Unable to create Java helper target directory: read-only")
    );
    assert_eq!(
        compile_setup_failure(CompileStep::FindSource, "/h/src/A.java"),
        helper_error("Java helper source not found at /h/src/A.java")
    );
    assert_eq!(
        javac_arguments("/a:/b", "/h/target/classes", "/h/src/A.java"),
        vec!["-cp", "/a:/b", "-d", "/h/target/classes", "/h/src/A.java"]
    );
    assert_eq!(
        check_compile(ProcessRun::LaunchFailed { reason: "No such file".to_string() }),
        Err(helper_error("Failed to invoke javac: No such file"))
    );
    assert_eq!(
        check_compile(ProcessRun::Exited {
            success: false,
            status: "exit status: 1".to_string(),
            stdout: vec![],
            stderr: b"A.java:1: error".to_vec(),
        }),
        Err(helper_error("javac exited with status exit status: 1: A.java:1: error"))
    );
    assert_eq!(
        check_compile(ProcessRun::Exited {
            success: true,
            status: "exit status: 0".to_string(),
            stdout: b"ignored".to_vec(),
            stderr: b"warning".to_vec(),
        }),
        Ok(())
    );
}

#[test]
fn helper_is_run_with_exports_classpath_and_dump() {
    assert_eq!(
        java_arguments("/c:/a", "/dumps/x.phd", "phd"),
        vec![
            "--add-exports",
            "java.base/jdk.internal.org.objectweb.asm=ALL-UNNAMED",
            "--add-exports",
            "java.base/jdk.internal.org.objectweb.asm.tree=ALL-UNNAMED",
            "--add-exports",
            "java.base/jdk.internal.module=ALL-UNNAMED",
            "-cp",
            "/c:/a",
            "com.maisi.heapdump.JavaHeapAnalyzer",
            "--input",
            "/dumps/x.phd",
            "--format",
            "phd",
        ]
    );
}

#[test]
fn helper_output_is_taken_only_from_a_successful_run() {
    assert_eq!(
        helper_stdout(ProcessRun::LaunchFailed { reason: "java not found".to_string() }),
        Err(helper_error("Failed to launch Java helper: java not found"))
    );
    assert_eq!(
        helper_stdout(ProcessRun::Exited {
            success: false,
            status: "exit status: 2".to_string(),
            stdout: b"{}".to_vec(),
            stderr: vec![b'b', b'a', b'd', 0xFF],
        }),
        Err(helper_error("Java helper exited with status exit status: 2: bad\u{FFFD}"))
    );
    assert_eq!(
        helper_stdout(ProcessRun::Exited {
            success: true,
            status: "exit status: 0".to_string(),
            stdout: "{\"é\":1}".as_bytes().to_vec(),
            stderr: b"noise".to_vec(),
        }),
        Ok("{\"é\":1}".to_string())
    );
    match helper_stdout(ProcessRun::Exited {
        success: true,
        status: "exit status: 0".to_string(),
        stdout: vec![b'{', 0xFF, b'}'],
        stderr: vec![],
    }) {
        Err(HprofSlurpError::JavaHelperError { message }) => {
            assert!(message.starts_with("Java helper produced invalid UTF-8 output: "));
            assert!(message.len() > "Java helper produced invalid UTF-8 output: ".len());
        }
        other => panic!("unexpected {:?}", other),
    }
}

#[test]
fn helper_report_is_rendered() {
    let result = render_helper_response(sample_response(), "phd", 123_456, false);
    assert_eq!(
        result.summary,
        "\nFile content summary (Java helper mode):\n  Input bytes: 123456\n  Helper-reported format: PHD\n  Objects counted: 10003\n  Distinct classes: 2\n  Strings encountered: 3\n  Helper-reported heap bytes: 240096"
    );
    assert_eq!(
        result.thread_info,
        "\nThread information:\n  Threads discovered: 7\n  Detailed stack traces are not available for phd dumps in helper mode."
    );
    assert_eq!(
        result.memory_usage,
        vec![
            ClassAllocationStats::new("org.example.Main$TestClass".to_string(), 10_000, 24, 240_000),
            ClassAllocationStats::new("java.lang.String".to_string(), 3, 40, 96),
        ]
    );
    assert_eq!(result.duplicated_strings, None);
    assert_eq!(result.captured_strings, None);
}

#[test]
fn helper_cannot_list_strings_and_says_so() {
    let result = render_helper_response(sample_response(), "openj9-core", 0, true);
    assert_eq!(
        result.captured_strings,
        Some("Listing captured strings is not yet supported for this dump format.\n".to_string())
    );
    assert!(result.thread_info.contains("Detailed stack traces are not available for openj9-core dumps"));
    assert!(result.summary.contains("Input bytes: 0\n"));
}

#[test]
fn helper_path_reports_the_test_class_count() {
    let result = analyze_with_java_helper("phd", 10, false, "{...}", Ok(sample_response())).unwrap();
    let count = result
        .memory_usage
        .iter()
        .find(|entry| entry.class_name == "org.example.Main$TestClass")
        .map(|entry| entry.instance_count);
    assert_eq!(count, Some(10_000));
}

#[test]
fn undecodable_report_is_a_failure_with_the_payload() {
    assert_eq!(
        analyze_with_java_helper(
            "phd",
            10,
            false,
            "<html>",
            Err("expected value at line 1 column 1".to_string())
        ),
        Err(helper_error(
            "Failed to parse Java helper JSON output: expected value at line 1 column 1\nPayload: <html>"
        ))
    );
}

#[test]
fn rendering_twice_gives_the_same_result() {
    let first = analyze_with_java_helper("phd", 10, true, "", Ok(sample_response()));
    let second = analyze_with_java_helper("phd", 10, true, "", Ok(sample_response()));
    assert_eq!(first, second);
}
