use uv_build::{BuildOutput, Error, PythonRunnerOutput};

fn lines(text: &[&str]) -> Vec<String> {
    text.iter().map(|l| l.to_string()).collect()
}

#[test]
fn missing_header() {
    let output = PythonRunnerOutput {
        status: "exit status: 0".to_string(),
        stdout: lines(&[
            "running bdist_wheel",
            "running build",
            "[...]",
            "creating build/temp.linux-x86_64-cpython-39/pygraphviz",
            "gcc -Wno-unused-result -Wsign-compare -DNDEBUG -g -fwrapv -O3 -Wall -DOPENSSL_NO_SSL3 -fPIC -DSWIG_PYTHON_STRICT_BYTE_CHAR -I/tmp/.tmpy6vVes/.venv/include -I/home/konsti/.pyenv/versions/3.9.18/include/python3.9 -c pygraphviz/graphviz_wrap.c -o build/temp.linux-x86_64-cpython-39/pygraphviz/graphviz_wrap.o",
        ]),
        stderr: lines(&[
            "warning: no files found matching '*.png' under directory 'doc'",
            "warning: no files found matching '*.txt' under directory 'doc'",
            "[...]",
            "no previously-included directories found matching 'doc/build'",
            "pygraphviz/graphviz_wrap.c:3020:10: fatal error: graphviz/cgraph.h: No such file or directory",
            " 3020 | #include \"graphviz/cgraph.h\"",
            "      |          ^~~~~~~~~~~~~~~~~~~",
            "compilation terminated.",
            "error: command '/usr/bin/gcc' failed with exit code 1",
        ]),
    };

    let err = Error::from_command_output(
        "Failed building wheel through setup.py".to_string(),
        &output,
        BuildOutput::Debug,
        "pygraphviz-1.11",
    );
    assert!(matches!(err, Error::MissingHeaderOutput { .. }));
    // Unix uses exit status, Windows uses exit code.
    let formatted = err.to_string().replace("exit status: ", "exit code: ");
    let expected = "Failed building wheel through setup.py with exit code: 0
--- stdout:
running bdist_wheel
running build
[...]
creating build/temp.linux-x86_64-cpython-39/pygraphviz
gcc -Wno-unused-result -Wsign-compare -DNDEBUG -g -fwrapv -O3 -Wall -DOPENSSL_NO_SSL3 -fPIC -DSWIG_PYTHON_STRICT_BYTE_CHAR -I/tmp/.tmpy6vVes/.venv/include -I/home/konsti/.pyenv/versions/3.9.18/include/python3.9 -c pygraphviz/graphviz_wrap.c -o build/temp.linux-x86_64-cpython-39/pygraphviz/graphviz_wrap.o
--- stderr:
warning: no files found matching '*.png' under directory 'doc'
warning: no files found matching '*.txt' under directory 'doc'
[...]
no previously-included directories found matching 'doc/build'
pygraphviz/graphviz_wrap.c:3020:10: fatal error: graphviz/cgraph.h: No such file or directory
 3020 | #include \"graphviz/cgraph.h\"
      |          ^~~~~~~~~~~~~~~~~~~
compilation terminated.
error: command '/usr/bin/gcc' failed with exit code 1
---";
    assert_eq!(formatted, expected);
    assert_eq!(
        err.source().unwrap().to_string(),
        "This error likely indicates that you need to install a library that provides \"graphviz/cgraph.h\" for pygraphviz-1.11"
    );
}

#[test]
fn missing_linker_library() {
    let output = PythonRunnerOutput {
        status: "exit status: 0".to_string(),
        stdout: Vec::new(),
        stderr: lines(&[
            "1099 |     n = strlen(p);",
            "     |         ^~~~~~~~~",
            "/usr/bin/ld: cannot find -lncurses: No such file or directory",
            "collect2: error: ld returned 1 exit status",
            "error: command '/usr/bin/x86_64-linux-gnu-gcc' failed with exit code 1",
        ]),
    };

    let err = Error::from_command_output(
        "Failed building wheel through setup.py".to_string(),
        &output,
        BuildOutput::Debug,
        "pygraphviz-1.11",
    );
    assert!(matches!(err, Error::MissingHeaderOutput { .. }));
    // Unix uses exit status, Windows uses exit code.
    let formatted = err.to_string().replace("exit status: ", "exit code: ");
    let expected = "Failed building wheel through setup.py with exit code: 0
--- stdout:

--- stderr:
1099 |     n = strlen(p);
     |         ^~~~~~~~~
/usr/bin/ld: cannot find -lncurses: No such file or directory
collect2: error: ld returned 1 exit status
error: command '/usr/bin/x86_64-linux-gnu-gcc' failed with exit code 1
---";
    assert_eq!(formatted, expected);
    assert_eq!(
        err.source().unwrap().to_string(),
        "This error likely indicates that you need to install the library that provides a shared library for ncurses for pygraphviz-1.11 (e.g. libncurses-dev)"
    );
}

#[test]
fn missing_wheel_package() {
    let output = PythonRunnerOutput {
        status: "exit status: 0".to_string(),
        stdout: Vec::new(),
        stderr: lines(&[
            "usage: setup.py [global_opts] cmd1 [cmd1_opts] [cmd2 [cmd2_opts] ...]",
            "   or: setup.py --help [cmd1 cmd2 ...]",
            "   or: setup.py --help-commands",
            "   or: setup.py cmd --help",
            "",
            "error: invalid command 'bdist_wheel'",
        ]),
    };

    let err = Error::from_command_output(
        "Failed building wheel through setup.py".to_string(),
        &output,
        BuildOutput::Debug,
        "pygraphviz-1.11",
    );
    assert!(matches!(err, Error::MissingHeaderOutput { .. }));
    // Unix uses exit status, Windows uses exit code.
    let formatted = err.to_string().replace("exit status: ", "exit code: ");
    let expected = "Failed building wheel through setup.py with exit code: 0
--- stdout:

--- stderr:
usage: setup.py [global_opts] cmd1 [cmd1_opts] [cmd2 [cmd2_opts] ...]
   or: setup.py --help [cmd1 cmd2 ...]
   or: setup.py --help-commands
   or: setup.py cmd --help

error: invalid command 'bdist_wheel'
---";
    assert_eq!(formatted, expected);
    assert_eq!(
        err.source().unwrap().to_string(),
        "This error likely indicates that pygraphviz-1.11 depends on wheel, but doesn't declare it as a build dependency. If pygraphviz-1.11 is a first-party package, consider adding wheel to its build-system requirements. Otherwise, install wheel into the environment and re-run with build isolation disabled."
    );
}
