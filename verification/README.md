# canvas_core

The verified core of `canvas`, a command line client for the Canvas LMS.

The command line's validation, rules and JSON documents are in `src/`,
written in Verus and proved against its contracts:

- identifiers, names, keywords and dates, each a type that only holds valid
  values (`ids`, `names`, `kinds`, `dates`, `hosts`, `windows`, `contexts`);
- the typed request each command stands for, with every value checked in the
  order the command line gives it and the first refusal reported
  (`cli`, `requests`, `assignments`, `quizzes`, `submissions`, `modules`,
  `banks`, `pages`, `calendar`, `conferences`, `rubrics`, `reports`,
  `catalog`);
- what each command does before any work: its plan under `--explain`, and
  the refusal of a destructive step without `--confirm` (`gates`);
- JSON documents given on the command line, read from their text through
  `serde_json` (`json`, `requirements`, `imports`), and those
  it prints: the response envelopes, error details and schemas
  (`envelopes`, `schema`);
- configuration merging, where the environment overrides the file (`config`);
- the retry, pagination and polling decisions (`net`, `migrations`);
- the stable codes, messages and details of errors (`errors`, `details`);
- planning commands from a free-text request (`ask`).

`app/` is the program around it: argument parsing, HTTP, files, the
terminal, the floating-point points and scores, and the summaries of
Canvas replies, which carry such numbers. `tests/` exercises the
library from outside.
