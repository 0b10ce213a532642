use licer::{
    get_license, read_cargo, read_git, read_node, write_pkg, Author, CliError, SourceFile,
    Sources,
};

fn text_file(contents: &str) -> SourceFile {
    SourceFile::Text(contents.trim().to_owned())
}

fn beside_node(contents: &str) -> Sources {
    Sources { node: text_file(contents), cargo: SourceFile::Missing, git: None, now: None }
}

fn beside_cargo(contents: &str) -> Sources {
    Sources { node: SourceFile::Missing, cargo: text_file(contents), git: None, now: None }
}

fn node_authors(contents: &str) -> Vec<Author> {
    let mut warnings: Vec<CliError> = Vec::new();
    let info = read_node(&text_file(contents), &mut warnings).unwrap();
    assert!(warnings.is_empty());
    info.authors
}

fn cargo_authors(contents: &str) -> Vec<Author> {
    let mut warnings: Vec<CliError> = Vec::new();
    let info = read_cargo(&text_file(contents), &mut warnings).unwrap();
    assert!(warnings.is_empty());
    info.authors
}

fn license_text(
    license: &str,
    names: Vec<String>,
    project: Option<String>,
    url: Option<String>,
    year: &str,
    sources: &Sources,
) -> String {
    let mut warnings: Vec<CliError> = Vec::new();
    let outcome = get_license(
        license,
        Vec::new(),
        names,
        project,
        url,
        Some(year.to_owned()),
        &Vec::new(),
        sources,
        &mut warnings,
    );
    assert!(warnings.is_empty());
    match outcome {
        Ok((text, _)) => text,
        Err(error) => panic!("{}", error.message()),
    }
}

#[test]
fn node_package_multiple_authors() {
    let authors = node_authors(
        r#"
		{
			"author": "John Doe <johndoe@gmail.com> (https://johndoe.com)",
			"contributors": [
				"<janedoe@gmail.com> Jane Doe (https://janedoe.com)",
				{
					"name": "John Cena",
					"email": "johncena@gmail.com"
				}
			]
		}"#,
    );

    assert_eq!(authors.len(), 3);
    assert_eq!(authors[0].name, "John Doe");
    assert_eq!(authors[0].email, Some("johndoe@gmail.com".to_owned()));
    assert_eq!(authors[1].name, "Jane Doe");
    assert_eq!(authors[1].email, Some("janedoe@gmail.com".to_owned()));
    assert_eq!(authors[2].name, "John Cena");
    assert_eq!(authors[2].email, Some("johncena@gmail.com".to_owned()));
}

#[test]
fn node_package_singular_author() {
    let authors = node_authors(
        r#"
		{
			"author": {
				"name": "John Doe",
				"email": "johndoe@yahoo.org",
				"url": "https://johndoe.rs"
			}
		}"#,
    );

    assert_eq!(authors.len(), 1);
    assert_eq!(authors[0].name, "John Doe");
    assert_eq!(authors[0].email, Some("johndoe@yahoo.org".to_owned()));
}

#[test]
fn cargo_package_multiple_authors() {
    let authors = cargo_authors(
        r#"
		[package]
		authors = ["John Appleseed (https://johnny.com) <johnappleseed@microsoft.us>", "Jane"]"#,
    );

    assert_eq!(authors.len(), 2);
    assert_eq!(authors[0].name, "John Appleseed");
    assert_eq!(
        authors[0].email,
        Some("johnappleseed@microsoft.us".to_owned())
    );
    assert_eq!(authors[1].name, "Jane");
    assert_eq!(authors[1].email, None);
}

#[test]
fn cargo_package_singular_author() {
    let authors = cargo_authors(
        r#"
		[package]
		authors = ["<johndoe@gmail.com> John Doe"]
		"#,
    );

    assert_eq!(authors.len(), 1);
    assert_eq!(authors[0].name, "John Doe");
    assert_eq!(authors[0].email, Some("johndoe@gmail.com".to_owned()));
}

#[test]
fn mit_flag_provided() {
    assert_eq!(
        license_text(
            "mit",
            vec!["John".to_owned()],
            None,
            None,
            "2025",
            &Sources::none()
        )
        .trim(),
        r#"
MIT License

Copyright (c) 2025 John

Permission is hereby granted, free of charge, to any person obtaining a copy
of this software and associated documentation files (the "Software"), to deal
in the Software without restriction, including without limitation the rights
to use, copy, modify, merge, publish, distribute, sublicense, and/or sell
copies of the Software, and to permit persons to whom the Software is
furnished to do so, subject to the following conditions:

The above copyright notice and this permission notice shall be included in all
copies or substantial portions of the Software.

THE SOFTWARE IS PROVIDED "AS IS", WITHOUT WARRANTY OF ANY KIND, EXPRESS OR
IMPLIED, INCLUDING BUT NOT LIMITED TO THE WARRANTIES OF MERCHANTABILITY,
FITNESS FOR A PARTICULAR PURPOSE AND NONINFRINGEMENT. IN NO EVENT SHALL THE
AUTHORS OR COPYRIGHT HOLDERS BE LIABLE FOR ANY CLAIM, DAMAGES OR OTHER
LIABILITY, WHETHER IN AN ACTION OF CONTRACT, TORT OR OTHERWISE, ARISING FROM,
OUT OF OR IN CONNECTION WITH THE SOFTWARE OR THE USE OR OTHER DEALINGS IN THE
SOFTWARE."#
        .trim()
    );
}

#[test]
fn mit_git() {
    let author = read_git(
        r#"
		user.email jane.user.email@yahoo.net
		user.name Jane Janes"#
        .to_owned(),
    )
    .unwrap();

    assert_eq!(
        license_text(
            "mit",
            vec![author.name],
            None,
            None,
            "2025",
            &Sources::none()
        )
        .trim(),
        r#"
MIT License

Copyright (c) 2025 Jane Janes

Permission is hereby granted, free of charge, to any person obtaining a copy
of this software and associated documentation files (the "Software"), to deal
in the Software without restriction, including without limitation the rights
to use, copy, modify, merge, publish, distribute, sublicense, and/or sell
copies of the Software, and to permit persons to whom the Software is
furnished to do so, subject to the following conditions:

The above copyright notice and this permission notice shall be included in all
copies or substantial portions of the Software.

THE SOFTWARE IS PROVIDED "AS IS", WITHOUT WARRANTY OF ANY KIND, EXPRESS OR
IMPLIED, INCLUDING BUT NOT LIMITED TO THE WARRANTIES OF MERCHANTABILITY,
FITNESS FOR A PARTICULAR PURPOSE AND NONINFRINGEMENT. IN NO EVENT SHALL THE
AUTHORS OR COPYRIGHT HOLDERS BE LIABLE FOR ANY CLAIM, DAMAGES OR OTHER
LIABILITY, WHETHER IN AN ACTION OF CONTRACT, TORT OR OTHERWISE, ARISING FROM,
OUT OF OR IN CONNECTION WITH THE SOFTWARE OR THE USE OR OTHER DEALINGS IN THE
SOFTWARE."#
        .trim()
    );
}

#[test]
fn bsd_two_node_package() {
    let sources = beside_node(
        r#"
		{
			"author": {
				"name": "Jane Doe"
			},
			"contributors": [
				"John Doe",
				{
					"name": "John Cena"
				}
			]
		}"#,
    );

    let license = license_text("bsd_two", Vec::new(), None, None, "1983", &sources);

    assert_eq!(
        license.trim(),
        r#"
BSD 2-Clause License

Copyright (c) 1983, Jane Doe, John Doe, John Cena

Redistribution and use in source and binary forms, with or without
modification, are permitted provided that the following conditions are met:

1. Redistributions of source code must retain the above copyright notice, this
list of conditions and the following disclaimer.

2. Redistributions in binary form must reproduce the above copyright notice,
this list of conditions and the following disclaimer in the documentation
and/or other materials provided with the distribution.

THIS SOFTWARE IS PROVIDED BY THE COPYRIGHT HOLDERS AND CONTRIBUTORS "AS IS"
AND ANY EXPRESS OR IMPLIED WARRANTIES, INCLUDING, BUT NOT LIMITED TO, THE
IMPLIED WARRANTIES OF MERCHANTABILITY AND FITNESS FOR A PARTICULAR PURPOSE ARE
DISCLAIMED. IN NO EVENT SHALL THE COPYRIGHT HOLDER OR CONTRIBUTORS BE LIABLE
FOR ANY DIRECT, INDIRECT, INCIDENTAL, SPECIAL, EXEMPLARY, OR CONSEQUENTIAL
DAMAGES (INCLUDING, BUT NOT LIMITED TO, PROCUREMENT OF SUBSTITUTE GOODS OR
SERVICES; LOSS OF USE, DATA, OR PROFITS; OR BUSINESS INTERRUPTION) HOWEVER
CAUSED AND ON ANY THEORY OF LIABILITY, WHETHER IN CONTRACT, STRICT LIABILITY,
OR TORT (INCLUDING NEGLIGENCE OR OTHERWISE) ARISING IN ANY WAY OUT OF THE USE
OF THIS SOFTWARE, EVEN IF ADVISED OF THE POSSIBILITY OF SUCH DAMAGE."#
        .trim()
    )
}

#[test]
fn bsd_cargo_package() {
    let sources = beside_cargo(
        r#"
[package]
name = "licar"
version = "0.1.0"
authors = ["John Doe", "<janedoe@gmail.com> Jane Doe"]"#,
    );

    let license = license_text("bsd_two", Vec::new(), None, None, "2017", &sources);

    assert_eq!(
        license.trim(),
        r#"
BSD 2-Clause License

Copyright (c) 2017, John Doe, Jane Doe

Redistribution and use in source and binary forms, with or without
modification, are permitted provided that the following conditions are met:

1. Redistributions of source code must retain the above copyright notice, this
list of conditions and the following disclaimer.

2. Redistributions in binary form must reproduce the above copyright notice,
this list of conditions and the following disclaimer in the documentation
and/or other materials provided with the distribution.

THIS SOFTWARE IS PROVIDED BY THE COPYRIGHT HOLDERS AND CONTRIBUTORS "AS IS"
AND ANY EXPRESS OR IMPLIED WARRANTIES, INCLUDING, BUT NOT LIMITED TO, THE
IMPLIED WARRANTIES OF MERCHANTABILITY AND FITNESS FOR A PARTICULAR PURPOSE ARE
DISCLAIMED. IN NO EVENT SHALL THE COPYRIGHT HOLDER OR CONTRIBUTORS BE LIABLE
FOR ANY DIRECT, INDIRECT, INCIDENTAL, SPECIAL, EXEMPLARY, OR CONSEQUENTIAL
DAMAGES (INCLUDING, BUT NOT LIMITED TO, PROCUREMENT OF SUBSTITUTE GOODS OR
SERVICES; LOSS OF USE, DATA, OR PROFITS; OR BUSINESS INTERRUPTION) HOWEVER
CAUSED AND ON ANY THEORY OF LIABILITY, WHETHER IN CONTRACT, STRICT LIABILITY,
OR TORT (INCLUDING NEGLIGENCE OR OTHERWISE) ARISING IN ANY WAY OUT OF THE USE
OF THIS SOFTWARE, EVEN IF ADVISED OF THE POSSIBILITY OF SUCH DAMAGE."#
        .trim()
    )
}

#[test]
fn ncsa_flag_provded() {
    assert_eq!(
        license_text(
            "ncsa",
            vec!["John".to_owned(), "Jane".to_owned()],
            Some("LICER".to_owned()),
            Some("https://github.com".to_owned()),
            "2025",
            &Sources::none()
        )
        .trim(),
        r#"
University of Illinois/NCSA Open Source License

Copyright (c) 2025 John, Jane. All rights reserved.

Developed by: LICER
              John, Jane
              https://github.com

Permission is hereby granted, free of charge, to any person
obtaining a copy of this software and associated documentation files
(the "Software"), to deal with the Software without restriction,
including without limitation the rights to use, copy, modify, merge,
publish, distribute, sublicense, and/or sell copies of the Software,
and to permit persons to whom the Software is furnished to do so,
subject to the following conditions:

* Redistributions of source code must retain the above copyright notice,
    this list of conditions and the following disclaimers.

* Redistributions in binary form must reproduce the above copyright
    notice, this list of conditions and the following disclaimers in the
    documentation and/or other materials provided with the distribution.

* Neither the names of [fullname], [project] nor the names of its
    contributors may be used to endorse or promote products derived from
    this Software without specific prior written permission.

THE SOFTWARE IS PROVIDED "AS IS", WITHOUT WARRANTY OF ANY KIND, EXPRESS
OR IMPLIED, INCLUDING BUT NOT LIMITED TO THE WARRANTIES OF MERCHANTABILITY,
FITNESS FOR A PARTICULAR PURPOSE AND NONINFRINGEMENT. IN NO EVENT SHALL THE
CONTRIBUTORS OR COPYRIGHT HOLDERS BE LIABLE FOR ANY CLAIM, DAMAGES OR OTHER
LIABILITY, WHETHER IN AN ACTION OF CONTRACT, TORT OR OTHERWISE, ARISING FROM,
OUT OF OR IN CONNECTION WITH THE SOFTWARE OR THE USE OR OTHER DEALINGS WITH
THE SOFTWARE."#
        .trim()
    );
}

#[test]
fn ncsa_node_package() {
    let sources = beside_node(
        r#"
		{
			"name": "gnu-js",
			"homepage": "https://js.gnu.org",
			"author": {
				"name": "Linus Torvalds"
			},
			"contributors": [
				{
					"name": "John Cena",
					"url": "https://johncena.com"
				},
				"(https://jane.org) Jane Doe"
			]
		}
		"#,
    );

    let license = license_text("ncsa", Vec::new(), None, None, "2000", &sources);

    assert_eq!(
        license.trim(),
        r#"
University of Illinois/NCSA Open Source License

Copyright (c) 2000 Linus Torvalds, John Cena, Jane Doe. All rights reserved.

Developed by: gnu-js
              Linus Torvalds, John Cena, Jane Doe
              https://js.gnu.org

Permission is hereby granted, free of charge, to any person
obtaining a copy of this software and associated documentation files
(the "Software"), to deal with the Software without restriction,
including without limitation the rights to use, copy, modify, merge,
publish, distribute, sublicense, and/or sell copies of the Software,
and to permit persons to whom the Software is furnished to do so,
subject to the following conditions:

* Redistributions of source code must retain the above copyright notice,
    this list of conditions and the following disclaimers.

* Redistributions in binary form must reproduce the above copyright
    notice, this list of conditions and the following disclaimers in the
    documentation and/or other materials provided with the distribution.

* Neither the names of [fullname], [project] nor the names of its
    contributors may be used to endorse or promote products derived from
    this Software without specific prior written permission.

THE SOFTWARE IS PROVIDED "AS IS", WITHOUT WARRANTY OF ANY KIND, EXPRESS
OR IMPLIED, INCLUDING BUT NOT LIMITED TO THE WARRANTIES OF MERCHANTABILITY,
FITNESS FOR A PARTICULAR PURPOSE AND NONINFRINGEMENT. IN NO EVENT SHALL THE
CONTRIBUTORS OR COPYRIGHT HOLDERS BE LIABLE FOR ANY CLAIM, DAMAGES OR OTHER
LIABILITY, WHETHER IN AN ACTION OF CONTRACT, TORT OR OTHERWISE, ARISING FROM,
OUT OF OR IN CONNECTION WITH THE SOFTWARE OR THE USE OR OTHER DEALINGS WITH
THE SOFTWARE."#
        .trim()
    );
}

#[test]
fn ncsa_cargo_package() {
    let sources = beside_cargo(
        r#"
		[package]
        name = "gnu-rs"
        homepage = "https://rs.gnu.org"
        authors = ["(https://zahtec.com) Zahtec", "John"]
		"#,
    );

    let license = license_text("ncsa", Vec::new(), None, None, "2000", &sources);

    assert_eq!(
        license.trim(),
        r#"
University of Illinois/NCSA Open Source License

Copyright (c) 2000 Zahtec, John. All rights reserved.

Developed by: gnu-rs
              Zahtec, John
              https://rs.gnu.org

Permission is hereby granted, free of charge, to any person
obtaining a copy of this software and associated documentation files
(the "Software"), to deal with the Software without restriction,
including without limitation the rights to use, copy, modify, merge,
publish, distribute, sublicense, and/or sell copies of the Software,
and to permit persons to whom the Software is furnished to do so,
subject to the following conditions:

* Redistributions of source code must retain the above copyright notice,
    this list of conditions and the following disclaimers.

* Redistributions in binary form must reproduce the above copyright
    notice, this list of conditions and the following disclaimers in the
    documentation and/or other materials provided with the distribution.

* Neither the names of [fullname], [project] nor the names of its
    contributors may be used to endorse or promote products derived from
    this Software without specific prior written permission.

THE SOFTWARE IS PROVIDED "AS IS", WITHOUT WARRANTY OF ANY KIND, EXPRESS
OR IMPLIED, INCLUDING BUT NOT LIMITED TO THE WARRANTIES OF MERCHANTABILITY,
FITNESS FOR A PARTICULAR PURPOSE AND NONINFRINGEMENT. IN NO EVENT SHALL THE
CONTRIBUTORS OR COPYRIGHT HOLDERS BE LIABLE FOR ANY CLAIM, DAMAGES OR OTHER
LIABILITY, WHETHER IN AN ACTION OF CONTRACT, TORT OR OTHERWISE, ARISING FROM,
OUT OF OR IN CONNECTION WITH THE SOFTWARE OR THE USE OR OTHER DEALINGS WITH
THE SOFTWARE."#
        .trim()
    );
}

#[test]
fn git_singular_author() {
    let author = read_git(
        r#"
		user.name John Doe
		user.email johndoe@hotmail.io"#
        .to_owned(),
    )
    .unwrap();

    assert_eq!(author.name, "John Doe");
    assert_eq!(author.email.unwrap(), "johndoe@hotmail.io");
}

#[test]
fn node_package_mit_write() {
    let mut warnings: Vec<CliError> = Vec::new();
    let stamp = write_pkg(
        "MIT",
        &text_file(
            r#"
        {
            "name": "gnu-js",
            "author": {
                "name": "John Doe"
            }
        }
        "#,
        ),
        &SourceFile::Missing,
        &SourceFile::Missing,
        &mut warnings,
    )
    .unwrap();

    assert!(warnings.is_empty());
    assert_eq!(stamp.path, "package.json");
    assert_eq!(stamp.kind, "package.json");
    assert_eq!(
        stamp.contents.trim(),
        r#"
{
	"name": "gnu-js",
	"author": {
		"name": "John Doe"
	},
	"license": "MIT"
}"#
        .trim()
    );
}

#[test]
fn cargo_package_mit_write() {
    let mut warnings: Vec<CliError> = Vec::new();
    let stamp = write_pkg(
        "MIT",
        &SourceFile::Missing,
        &text_file(
            r#"
[package]
authors = ["John Appleseed (https://johnny.com) <johnappleseed@microsoft.us>", "Jane"]"#,
        ),
        &SourceFile::Missing,
        &mut warnings,
    )
    .unwrap();

    assert!(warnings.is_empty());
    assert_eq!(stamp.path, "Cargo.toml");
    assert_eq!(stamp.kind, "Cargo.toml");
    assert_eq!(
        stamp.contents.trim(),
        r#"
[package]
authors = ["John Appleseed (https://johnny.com) <johnappleseed@microsoft.us>", "Jane"]
license = "MIT""#
            .trim()
    );
}
