# rate_limit

Displays how much of a subscription's rate limit is left, in a terminal, in a tmux status line or
as JSON. The rules of the tool are a library that Verus verifies.

```
5h:24%(1h18m) 1w:40%
```

- `5h:24%`: 24% of the five-hour limit is left
- `(1h18m)`: time until it is reset
- `1w:40%`: 40% of the weekly limit is left

## Layout

- `src/`: the verified library
  - `show`, `lock`: which source the displayed data comes from, and who may ask the service
  - `extract`: reading the token from the desktop application's storage, step by step
  - `calls`: the callbacks of these three, with a record of every call
  - `cli`, `args`: the command line
  - `display`, `reset`, `decimal`: the lines and the JSON status
  - `cache`, `request`: the reply's headers, the age of the cache, the request
  - `storage`, `secret`, `json`, `pbkdf2`, `sha1`: how that storage is read
  - `paths`, `product`: where the files are
- `tests/`: tests of the library
- `app/`: the program around it: files, processes, the network, the clock and floating point

Functions named `law_...` state what holds of several functions together.

## Use

The program is installed as `<product>-rate-limit`. The first part of its name is the product whose
files it reads: `~/.<product>/.credentials.json` holds the token, `~/.<product>/rate-limit-cache.json`
the last reply, and `~/.<product>/rate-limit.lock` keeps concurrent calls apart.

| Argument | Effect |
|---|---|
| none | one coloured line |
| `tmux` | one plain line |
| `--json` | a structured status; not with `tmux` |
| `extract-token` | reads the token from the desktop application (macOS) |
| `--refresh` | ignores the cache |
| `--ttl-minutes N` | how long the cache is fresh, 1 to 60, 15 unless given |
| `--http-timeout-seconds N` | how long a request may take, 1 to 30, 10 unless given |
| `--show-reset-dates` | shows resets as dates, which is the default but for `--json` |
| `--hide-reset-dates` | never shows a reset as a date |

`extract-token` takes none of the display options. A reset is shown as a date, `M/D H[:MM]`, only
when at most 30% is left; the five-hour reset stays relative on the same local day, and the tmux
line leaves the weekly date out beside `[Xm ago]`.
