# jailer

A jailer for Firecracker microVMs with two interchangeable isolation backends, a new root and
Landlock rules, and the benchmarks that compare them. The library is written in Verus: what each
function returns is stated in its contract and proved.

* `src/` is the library. It decides; it touches neither the kernel, nor the file system, nor the
  clock. A course of actions is a function from the outcome of the last action to the next one.
* `app/` performs the actions: system calls, files, processes, Landlock, standard streams. The
  command line parser and the environment of a jail come from the deployment, through the traits
  in `app/seams.rs`.
* `tests/` runs the library on concrete values.

What is taken on trust is marked `external_body` or `assume_specification` in `src/`; the comment
above each names the outside function and says what is claimed of it.

What holds across functions is stated by the proof functions whose names begin with `law_`:

| law | about |
| --- | --- |
| `law_rights_fix_the_mask`, `law_rights_are_scoped`, `law_optional_paths` | the rules of a Landlock jail |
| `law_success_is_full_enforcement`, `law_restriction_comes_last`, `law_runs_end` | attaching them |
| `law_backends_share_everything_else` | the two jailers |
| `law_argument_names_are_distinct` | the command lines |
| `law_line_reads_back` | special files |
| `law_fixtures_precede_isolation`, `law_report_names_every_probe`, `law_report_is_one_line`, `law_report_reads_back` | the multi-file benchmark |
| `law_later_value_holds`, `law_last_values_hold`, `law_flag_order_does_not_matter`, `law_complete_line_is_read` | the command line of the fleet benchmark |
| `law_one_line_per_cycle`, `law_lines_are_single`, `law_lines_read_back`, `law_started_vms_are_cleaned_up`, `law_ids_are_fresh`, `law_no_signal_after_the_end`, `law_an_early_exit_is_left_alone` | the fleet benchmark |
