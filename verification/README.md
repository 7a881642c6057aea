# job_runner

Launching a job from the job page and following it, on this machine, as a task of the
DOK service or on the computing service.

- `src/` is the verified library. Each way of running a job is a state machine: it is
  given the outcome of the last action and answers with the next one.
  - `local`, `dok`, `remote`: the three ways of running a job; `remote_laws` states what
    holds of every run on the computing service.
  - `client`, `env`, `ftp`: the account on the computing service, how it is made from the
    environment, and a session on the file server.
  - `page`: what the page answers to the wish to launch, and what it shows.
  - `job`: the jobs and their logs.
  - `files`: the files of a job and their names on the file server.
  - `json`, `port`, `text`: reading replies, port numbers and texts.
- `app/` performs the actions: Docker, network, files, environment, screen.
- `tests/` runs the library.

`json` trusts two functions of `serde_json`, `files` the standard library's reading of a
path, and `text` its debug output of strings; their contracts stand beside them.
